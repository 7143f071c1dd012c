//! The links that an extension's manifest document declares, and the
//! repository that such a link names.

use crate::text::{
    chars_of, find_char, first_index, non_empty, opt_text, skip_prefixes, skip_suffixes,
    some_if_non_empty, split_once, str_eq, string_of, strip_prefixes, strip_suffixes,
};
use vstd::prelude::*;

verus! {

/// One attribute of an element: its local name and its value.
#[derive(Debug, Clone, PartialEq, Eq)]
pub struct XmlAttribute {
    pub name: String,
    pub value: String,
}

/// One node of a document: whether it is an element, and if so its local
/// name and its attributes in document order.
#[derive(Debug, Clone, PartialEq, Eq)]
pub struct XmlNode {
    pub element: bool,
    pub tag: String,
    pub attributes: Vec<XmlAttribute>,
}

/// A node, as mathematical values.
pub struct NodeModel {
    pub element: bool,
    pub tag: Seq<char>,
    pub attributes: Seq<(Seq<char>, Seq<char>)>,
}

impl View for XmlNode {
    type V = NodeModel;

    open spec fn view(&self) -> NodeModel {
        NodeModel {
            element: self.element,
            tag: self.tag@,
            attributes: self.attributes@.map_values(|a: XmlAttribute| (a.name@, a.value@)),
        }
    }
}

/// The nodes behind a list of nodes.
pub open spec fn node_models(nodes: Seq<XmlNode>) -> Seq<NodeModel> {
    nodes.map_values(|n: XmlNode| n@)
}

/// The nodes behind an optional list of nodes.
pub open spec fn opt_node_models(nodes: Option<Vec<XmlNode>>) -> Option<Seq<NodeModel>> {
    match nodes {
        Some(v) => Some(node_models(v@)),
        None => None,
    }
}

/// The nodes of the document that a text holds, the root first and then in
/// document order; nothing where the text is no well-formed document.
pub uninterp spec fn parsed_xml(text: Seq<char>) -> Option<Seq<NodeModel>>;

/// Parses the text with `roxmltree::Document::parse` and lists what
/// `Document::descendants` yields: for each node whether `Node::is_element`
/// holds, the local name from `Node::tag_name` (empty for a node that is no
/// element) and, from `Node::attributes`, each attribute's local name and
/// value. A text that the parser refuses gives `None`. The outcome is a
/// function of the text alone, so it has a name.
#[verifier::external_body]
fn xml_nodes(text: &str) -> (r: Option<Vec<XmlNode>>)
    ensures
        opt_node_models(r) == parsed_xml(text@),
{
    let document = roxmltree::Document::parse(text).ok()?;
    let nodes = document.descendants().map(|node| XmlNode {
        element: node.is_element(),
        tag: node.tag_name().name().to_owned(),
        attributes: node.attributes().map(|a| XmlAttribute {
            name: a.name().to_owned(),
            value: a.value().to_owned(),
        }).collect(),
    });
    Some(nodes.collect())
}

/// The links that a manifest declares. An absent link is `None`, never an
/// empty text.
#[derive(Debug, Clone, PartialEq, Eq)]
pub struct ManifestLinks {
    /// Where to learn about the extension: its homepage.
    pub homepage: Option<String>,
    /// The extension's repository on GitHub.
    pub github: Option<String>,
    /// The extension's source repository, wherever it is.
    pub source: Option<String>,
}

/// The links of a manifest, as mathematical values; an empty text stands
/// for a link not seen yet.
pub struct LinksModel {
    pub homepage: Seq<char>,
    pub github: Seq<char>,
    pub source: Seq<char>,
}

/// The value of the first attribute with the given name.
pub open spec fn attribute(attributes: Seq<(Seq<char>, Seq<char>)>, name: Seq<char>) -> Option<
    Seq<char>,
>
    decreases attributes.len(),
{
    if attributes.len() == 0 {
        None
    } else if attributes[0].0 == name {
        Some(attributes[0].1)
    } else {
        attribute(attributes.drop_first(), name)
    }
}

/// The links seen so far, after one more node. A `Property` element whose
/// `Id` is one of the three link kinds and which has a `Value` sets that
/// link; every other node leaves the links as they are.
pub open spec fn with_node(links: LinksModel, node: NodeModel) -> LinksModel {
    if node.element && node.tag == "Property"@ {
        match (attribute(node.attributes, "Id"@), attribute(node.attributes, "Value"@)) {
            (Some(id), Some(value)) => if id == "Microsoft.VisualStudio.Services.Links.Learn"@ {
                LinksModel { homepage: value, ..links }
            } else if id == "Microsoft.VisualStudio.Services.Links.GitHub"@ {
                LinksModel { github: value, ..links }
            } else if id == "Microsoft.VisualStudio.Services.Links.Source"@ {
                LinksModel { source: value, ..links }
            } else {
                links
            },
            _ => links,
        }
    } else {
        links
    }
}

/// The links that a sequence of nodes declares: where a link is declared
/// more than once, the last declaration counts.
pub open spec fn declared(nodes: Seq<NodeModel>) -> LinksModel
    decreases nodes.len(),
{
    if nodes.len() == 0 {
        LinksModel { homepage: Seq::empty(), github: Seq::empty(), source: Seq::empty() }
    } else {
        with_node(declared(nodes.drop_last()), nodes.last())
    }
}

/// The links that a manifest document declares. A text that is no
/// well-formed document declares none.
pub open spec fn manifest_links(parsed: Option<Seq<NodeModel>>) -> LinksModel {
    match parsed {
        Some(nodes) => declared(nodes),
        None => LinksModel { homepage: Seq::empty(), github: Seq::empty(), source: Seq::empty() },
    }
}

impl ManifestLinks {
    /// The links hold what the model holds, an empty text being an absent
    /// link.
    pub open spec fn holds(self, model: LinksModel) -> bool {
        &&& opt_text(self.homepage) == non_empty(model.homepage)
        &&& opt_text(self.github) == non_empty(model.github)
        &&& opt_text(self.source) == non_empty(model.source)
    }

    /// The repository that the links name: the one on GitHub, or else the
    /// source repository, whichever first names a repository at all.
    pub open spec fn repository_model(self) -> Option<(Seq<char>, Seq<char>)> {
        let alternate = match self.source {
            Some(s) => owner_and_repo(s@),
            None => None,
        };
        match self.github {
            Some(g) => match owner_and_repo(g@) {
                Some(named) => Some(named),
                None => alternate,
            },
            None => alternate,
        }
    }

    /// The owner and the name of the repository that the links name, if
    /// they name one.
    pub fn repository(&self) -> (r: Option<(String, String)>)
        ensures
            match r {
                Some((owner, name)) => self.repository_model() == Some((owner@, name@)),
                None => self.repository_model() is None,
            },
    {
        let named = match &self.github {
            Some(g) => repository_of(g.as_str()),
            None => None,
        };
        match named {
            Some(found) => Some(found),
            None => match &self.source {
                Some(s) => repository_of(s.as_str()),
                None => None,
            },
        }
    }

    /// No link at all.
    pub fn none() -> (r: Self)
        ensures
            r.homepage is None,
            r.github is None,
            r.source is None,
    {
        ManifestLinks { homepage: None, github: None, source: None }
    }

    /// The links that the nodes of a manifest document declare.
    pub fn from_nodes(nodes: &Vec<XmlNode>) -> (r: Self)
        ensures
            r.holds(declared(node_models(nodes@))),
    {
        let mut homepage = String::new();
        let mut github = String::new();
        let mut source = String::new();
        let ghost models = node_models(nodes@);
        let mut i: usize = 0;
        proof {
            assert(models.take(0) =~= Seq::<NodeModel>::empty());
        }
        while i < nodes.len()
            invariant
                i <= nodes.len(),
                models == node_models(nodes@),
                declared(models.take(i as int)) == (LinksModel {
                    homepage: homepage@,
                    github: github@,
                    source: source@,
                }),
            decreases nodes.len() - i,
        {
            proof {
                let next = models.take(i + 1);
                assert(next.drop_last() =~= models.take(i as int));
                assert(next.last() == nodes@[i as int]@);
            }
            let node = &nodes[i];
            if node.element && str_eq(node.tag.as_str(), "Property") {
                let id = find_attribute(&node.attributes, "Id");
                let value = find_attribute(&node.attributes, "Value");
                match (id, value) {
                    (Some(id), Some(value)) => {
                        if str_eq(id.as_str(), "Microsoft.VisualStudio.Services.Links.Learn") {
                            homepage = value;
                        } else if str_eq(
                            id.as_str(),
                            "Microsoft.VisualStudio.Services.Links.GitHub",
                        ) {
                            github = value;
                        } else if str_eq(
                            id.as_str(),
                            "Microsoft.VisualStudio.Services.Links.Source",
                        ) {
                            source = value;
                        }
                    },
                    _ => {},
                }
            }
            i += 1;
        }
        proof {
            assert(models.take(nodes.len() as int) =~= models);
        }
        ManifestLinks {
            homepage: some_if_non_empty(homepage),
            github: some_if_non_empty(github),
            source: some_if_non_empty(source),
        }
    }

    /// The links that a manifest document declares.
    pub fn parse(manifest: &str) -> (r: Self)
        ensures
            r.holds(manifest_links(parsed_xml(manifest@))),
    {
        match xml_nodes(manifest) {
            Some(nodes) => Self::from_nodes(&nodes),
            None => ManifestLinks { homepage: None, github: None, source: None },
        }
    }
}

/// What is left of a repository address once the marks of a git address are
/// taken off: every leading `git+`, every trailing `.git`, and then every
/// leading `https://github.com/`.
pub open spec fn repository_path(url: Seq<char>) -> Seq<char> {
    strip_prefixes(
        strip_suffixes(strip_prefixes(url, "git+"@), ".git"@),
        "https://github.com/"@,
    )
}

/// The owner and the name of the repository that an address names: the
/// first two parts of its path, both non-empty. An address whose path has no
/// two such parts names no repository.
pub open spec fn owner_and_repo(url: Seq<char>) -> Option<(Seq<char>, Seq<char>)> {
    match split_once(repository_path(url), '/') {
        Some((owner, rest)) => {
            let repo = rest.take(first_index(rest, '/'));
            if owner.len() > 0 && repo.len() > 0 {
                Some((owner, repo))
            } else {
                None
            }
        },
        None => None,
    }
}

/// The owner and the name of the repository that a link names, if it names
/// one.
pub fn repository_of(url: &str) -> (r: Option<(String, String)>)
    ensures
        match r {
            Some((owner, repo)) => owner_and_repo(url@) == Some((owner@, repo@)),
            None => owner_and_repo(url@) is None,
        },
{
    let chars = chars_of(url);
    let git_plus = chars_of("git+");
    let dot_git = chars_of(".git");
    let host = chars_of("https://github.com/");
    let n = chars.len();
    proof {
        assert(chars@.subrange(0, n as int) =~= chars@);
    }
    let lo = skip_prefixes(&chars, 0, n, &git_plus);
    let hi = skip_suffixes(&chars, lo, n, &dot_git);
    let lo = skip_prefixes(&chars, lo, hi, &host);
    let ghost path = chars@.subrange(lo as int, hi as int);
    assert(path == repository_path(url@));
    proof {
        assert(chars@.skip(lo as int).len() == n - lo);
    }
    match find_char(&chars, '/', lo, hi) {
        None => None,
        Some(slash) => {
            let end = match find_char(&chars, '/', slash + 1, hi) {
                Some(next) => next,
                None => hi,
            };
            proof {
                let rest = path.skip(slash - lo + 1);
                assert(rest =~= chars@.subrange(slash + 1, hi as int));
                assert(path.take(slash - lo) =~= chars@.subrange(lo as int, slash as int));
                assert(rest.take(end - slash - 1) =~= chars@.subrange(slash + 1, end as int));
            }
            if slash > lo && end > slash + 1 {
                Some((string_of(&chars, lo, slash), string_of(&chars, slash + 1, end)))
            } else {
                None
            }
        },
    }
}

/// The value of the first attribute with the given name.
fn find_attribute(attributes: &Vec<XmlAttribute>, name: &str) -> (r: Option<String>)
    ensures
        opt_text(r) == attribute(
            attributes@.map_values(|a: XmlAttribute| (a.name@, a.value@)),
            name@,
        ),
{
    let ghost pairs = attributes@.map_values(|a: XmlAttribute| (a.name@, a.value@));
    let mut i: usize = 0;
    proof {
        assert(pairs.skip(0) =~= pairs);
    }
    while i < attributes.len()
        invariant
            i <= attributes.len(),
            pairs == attributes@.map_values(|a: XmlAttribute| (a.name@, a.value@)),
            attribute(pairs, name@) == attribute(pairs.skip(i as int), name@),
        decreases attributes.len() - i,
    {
        proof {
            assert(pairs.skip(i as int)[0] == pairs[i as int]);
            assert(pairs.skip(i as int).drop_first() =~= pairs.skip(i + 1));
        }
        if str_eq(attributes[i].name.as_str(), name) {
            return Some(attributes[i].value.clone());
        }
        i += 1;
    }
    None
}

} // verus!
