use nxpkgr::sources::links::{repository_of, ManifestLinks, XmlAttribute, XmlNode};

const MANIFEST: &str = r#"<?xml version="1.0" encoding="utf-8"?>
<PackageManifest Version="2.0.0" xmlns="http://schemas.microsoft.com/developer/vsx-schema/2011">
  <Metadata>
    <Identity Language="en-US" Id="spacemacs" Version="1.1.1" Publisher="cometeer"/>
    <DisplayName>Spacemacs</DisplayName>
    <Properties>
      <Property Id="Microsoft.VisualStudio.Code.Engine" Value="^1.10.0" />
      <Property Id="Microsoft.VisualStudio.Services.Links.Source" Value="https://github.com/cometeer/spacemacs.git" />
      <Property Id="Microsoft.VisualStudio.Services.Links.Getstarted" Value="https://github.com/cometeer/spacemacs.git" />
      <Property Id="Microsoft.VisualStudio.Services.Links.GitHub" Value="https://github.com/cometeer/spacemacs.git" />
      <Property Id="Microsoft.VisualStudio.Services.Links.Learn" Value="https://github.com/cometeer/spacemacs#readme" />
      <Property Id="Microsoft.VisualStudio.Services.GitHubFlavoredMarkdown" Value="true" />
    </Properties>
  </Metadata>
</PackageManifest>"#;

fn attribute(name: &str, value: &str) -> XmlAttribute {
    XmlAttribute { name: String::from(name), value: String::from(value) }
}

fn property(attributes: Vec<XmlAttribute>) -> XmlNode {
    XmlNode { element: true, tag: String::from("Property"), attributes }
}

#[test]
fn the_three_links_are_read_from_the_manifest() {
    let links = ManifestLinks::parse(MANIFEST);
    assert_eq!(links.homepage, Some(String::from("https://github.com/cometeer/spacemacs#readme")));
    assert_eq!(links.github, Some(String::from("https://github.com/cometeer/spacemacs.git")));
    assert_eq!(links.source, Some(String::from("https://github.com/cometeer/spacemacs.git")));
}

#[test]
fn a_text_that_is_no_document_declares_no_link() {
    assert_eq!(ManifestLinks::parse("not xml at all"), ManifestLinks::none());
    assert_eq!(ManifestLinks::parse(""), ManifestLinks::none());
    assert_eq!(ManifestLinks::parse("<a><b></a>"), ManifestLinks::none());
    assert_eq!(
        ManifestLinks::parse("https://example.org/Microsoft.VisualStudio.Services.VsixManifest"),
        ManifestLinks::none()
    );
}

#[test]
fn a_document_without_properties_declares_no_link() {
    assert_eq!(ManifestLinks::parse("<PackageManifest/>"), ManifestLinks::none());
    let other = r#"<m><Other Id="Microsoft.VisualStudio.Services.Links.Learn" Value="x"/></m>"#;
    assert_eq!(ManifestLinks::parse(other), ManifestLinks::none());
}

#[test]
fn a_property_needs_a_known_id_and_a_value() {
    let text = r#"<m>
        <Property Id="Microsoft.VisualStudio.Services.Links.Learn"/>
        <Property Value="https://example.org"/>
        <Property Id="Microsoft.VisualStudio.Services.Links.Support" Value="https://example.org"/>
        <Property Id="Microsoft.VisualStudio.Services.Links.GitHub" Value=""/>
    </m>"#;
    assert_eq!(ManifestLinks::parse(text), ManifestLinks::none());
}

#[test]
fn the_last_declaration_of_a_link_counts() {
    let text = r#"<m>
        <Property Id="Microsoft.VisualStudio.Services.Links.Learn" Value="https://one.example"/>
        <p><Property Id="Microsoft.VisualStudio.Services.Links.Learn" Value="https://two.example"/></p>
    </m>"#;
    let links = ManifestLinks::parse(text);
    assert_eq!(links.homepage, Some(String::from("https://two.example")));
    assert_eq!(links.github, None);
    assert_eq!(links.source, None);
}

#[test]
fn only_elements_named_property_count() {
    let nodes = vec![
        XmlNode { element: false, tag: String::new(), attributes: vec![] },
        XmlNode {
            element: false,
            tag: String::from("Property"),
            attributes: vec![
                attribute("Id", "Microsoft.VisualStudio.Services.Links.Learn"),
                attribute("Value", "https://ignored.example"),
            ],
        },
        XmlNode {
            element: true,
            tag: String::from("property"),
            attributes: vec![
                attribute("Id", "Microsoft.VisualStudio.Services.Links.Learn"),
                attribute("Value", "https://ignored.example"),
            ],
        },
        property(vec![
            attribute("Id", "Microsoft.VisualStudio.Services.Links.Source"),
            attribute("Value", "https://gitlab.com/a/b"),
        ]),
    ];
    let links = ManifestLinks::from_nodes(&nodes);
    assert_eq!(links.homepage, None);
    assert_eq!(links.github, None);
    assert_eq!(links.source, Some(String::from("https://gitlab.com/a/b")));
}

#[test]
fn the_first_attribute_of_a_name_counts() {
    let nodes = vec![property(vec![
        attribute("Value", "https://first.example"),
        attribute("Id", "Microsoft.VisualStudio.Services.Links.GitHub"),
        attribute("Id", "Microsoft.VisualStudio.Services.Links.Learn"),
        attribute("Value", "https://second.example"),
    ])];
    let links = ManifestLinks::from_nodes(&nodes);
    assert_eq!(links.github, Some(String::from("https://first.example")));
    assert_eq!(links.homepage, None);
}

#[test]
fn a_repository_address_names_owner_and_repository() {
    let named = Some((String::from("cometeer"), String::from("spacemacs")));
    assert_eq!(repository_of("https://github.com/cometeer/spacemacs.git"), named);
    assert_eq!(repository_of("https://github.com/cometeer/spacemacs"), named);
    assert_eq!(repository_of("git+https://github.com/cometeer/spacemacs.git"), named);
    assert_eq!(repository_of("cometeer/spacemacs"), named);
    assert_eq!(repository_of("https://github.com/cometeer/spacemacs/tree/master"), named);
    assert_eq!(repository_of("https://github.com/cometeer/spacemacs.git.git"), named);
}

#[test]
fn an_address_without_two_parts_names_no_repository() {
    assert_eq!(repository_of(""), None);
    assert_eq!(repository_of("https://github.com/"), None);
    assert_eq!(repository_of("https://github.com/cometeer"), None);
    assert_eq!(repository_of("https://github.com/cometeer/"), None);
    assert_eq!(repository_of("https://github.com//spacemacs"), None);
    assert_eq!(repository_of(".git"), None);
}

#[test]
fn the_github_link_comes_before_the_source_link() {
    let both = ManifestLinks {
        homepage: None,
        github: Some(String::from("https://github.com/a/b.git")),
        source: Some(String::from("https://github.com/c/d.git")),
    };
    assert_eq!(both.repository(), Some((String::from("a"), String::from("b"))));
    let source_only = ManifestLinks {
        homepage: None,
        github: None,
        source: Some(String::from("https://github.com/c/d.git")),
    };
    assert_eq!(source_only.repository(), Some((String::from("c"), String::from("d"))));
    let unusable_github = ManifestLinks {
        homepage: None,
        github: Some(String::from("nothing")),
        source: Some(String::from("https://github.com/c/d")),
    };
    assert_eq!(unusable_github.repository(), Some((String::from("c"), String::from("d"))));
    assert_eq!(ManifestLinks::none().repository(), None);
}
