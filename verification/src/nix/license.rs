//! The closed set of licenses known to nixpkgs, with the two lookup tables that
//! connect it to the outside world: canonical short identifiers on one side,
//! `lib.licenses` attribute references on the other.

use crate::text::{is_prefix, str_eq};
use vstd::prelude::*;

verus! {

/// A license of the nixpkgs license set.
#[allow(non_camel_case_types)]
#[allow(clippy::upper_case_acronyms)]
#[derive(Debug, Clone, Copy, PartialEq, Eq, Structural)]
pub enum NixLicense {
    /// The Abstyles License.
    Abstyles,
    /// The Academic Free License v2.0.
    AFL_2_0,
    /// The Academic Free License v2.1.
    AFL_2_1,
    /// The Academic Free License v3.0.
    AFL_3_0,
    /// The GNU Affero General Public License v3.0.
    AGPL_3_0,
    /// The GNU Affero General Public License v3.0 only.
    AGPL_3_0_Only,
    /// The GNU Affero General Public License v3.0 or later.
    AGPL_3_0_Plus,
    /// AMD License Agreement.
    AMD,
    /// The Apache License 2.0
    Apache_2_0,
    /// The Apple Public Source License 2.0.
    APSL_2_0,
    /// The Artistic License 1.0.
    Artistic_1_0,
    /// The Artistic License 2.0.
    Artistic_2_0,
    /// Amazon Software License.
    ASL,
    /// The Beerware License.
    Beerware,
    /// The Blue Oak Model License 1.0.0.
    BlueOak_1_0_0,
    /// The BSD Zero Clause License.
    BSD_0,
    /// The BSD 1-Clause License.
    BSD_1,
    /// The BSD 2-Clause “Simplified” License.
    BSD_2,
    /// The BSD-2-Clause Plus Patent License.
    BSD_2_Patent,
    /// The BSD 3-Clause “New” or “Revised” License.
    BSD_3,
    /// The BSD 4-Clause “Original” or “Old” License.
    BSD_4,
    /// The BSD-4-Clause (University of California-Specific).
    BSD_4_UC,
    /// The BSD Protection License.
    BSD_Protection,
    /// The Boost Software License 1.0.
    BSL_1_0,
    /// The Business Source License 1.1.
    BUSL_1_1,
    /// The Clarified Artistic License.
    ClArtistic,
    /// The Creative Commons Zero v1.0 Universal.
    CC0_1_0,
    /// The Creative Commons Attribution Non Commercial Share Alike 2.0 Generic.
    CC_BY_NC_SA_2_0,
    /// The Creative Commons Attribution Non Commercial Share Alike 2.5 Generic.
    CC_BY_NC_SA_2_5,
    /// The Creative Commons Attribution Non Commercial Share Alike 3.0 Unported.
    CC_BY_NC_SA_3_0,
    /// The Creative Commons Attribution Non Commercial Share Alike 4.0 International.
    CC_BY_NC_SA_4_0,
    /// The Creative Commons Attribution Non Commercial 3.0 Unported.
    CC_BY_NC_3_0,
    /// The Creative Commons Attribution Non Commercial 4.0 International.
    CC_BY_NC_4_0,
    /// The Creative Commons Attribution No Derivatives 3.0 Unported.
    CC_BY_ND_3_0,
    /// The Creative Commons Attribution Share Alike 1.0 Generic.
    CC_BY_SA_2_5,
    /// The Creative Commons Attribution 3.0 Unported.
    CC_BY_3_0,
    /// The Creative Commons Attribution Share Alike 3.0 Unported.
    CC_BY_SA_3_0,
    /// The Creative Commons Attribution 4.0 International.
    CC_BY_4_0,
    /// The Creative Commons Attribution Share Alike 4.0 International.
    CC_BY_SA_4_0,
    /// The Common Development and Distribution License 1.0.
    CDDL_1_0,
    /// The CeCILL Free Software License Agreement v2.0.
    CECILL_2_0,
    /// The CeCILL-B Free Software License Agreement.
    CECILL_B,
    /// The CeCILL-C Free Software License Agreement.
    CECILL_C,
    /// The Common Public Attribution License 1.0.
    CPAL_1_0,
    /// The Common Public License 1.0.
    CPL_1_0,
    /// The curl License.
    Curl,
    /// Databricks Proprietary License
    DataBricks,
    /// The DOC License.
    DOC,
    /// "EPSON AVASYS PUBLIC LICENSE"
    EAPL,
    /// The Eiffel Forum License v1.0.
    EFL_1_0,
    /// The Eiffel Forum License v2.0.
    EFL_2_0,
    /// ELASTIC License
    Elastic,
    EPL_1_0,
    /// The Eclipse Public License 1.0.
    EPL_2_0,
    /// Seiko Epson Corporation Software License Agreement for Linux
    Epson,
    /// The European Union Public License 1.1.
    EUPL_1_1,
    /// The European Union Public License 1.2.
    EUPL_1_2,
    /// Floodgap Free Software License
    FFSL,
    /// Unspecified free software license
    Free,
    /// The Freetype Project License.
    FTL,
    /// Geant4 Software License
    G4SL,
    /// GeoGebra Non-Commercial License Agreement
    GeoGebra,
    /// The GNU Free Documentation License v1.1.
    GFDL_1_1,
    /// The GNU Free Documentation License v1.1 only - invariants.
    GFDL_1_1_Only,
    /// The GNU Free Documentation License v1.1 or later - invariants.
    GFDL_1_1_Plus,
    /// The GNU Free Documentation License v1.2.
    GFDL_1_2,
    /// The GNU Free Documentation License v1.2 only - invariants.
    GFDL_1_2_Only,
    /// The GNU Free Documentation License v1.2 or later - invariants.
    GFDL_1_2_Plus,
    /// The GNU Free Documentation License v1.3.
    GFDL_1_3,
    /// The GNU Free Documentation License v1.3 only - invariants.
    GFDL_1_3_Only,
    /// The GNU Free Documentation License v1.3 or later - invariants.
    GFDL_1_3_Plus,
    /// The GNU General Public License v1.0 only.
    GPL_1_0,
    /// The GNU General Public License v1.0 only.
    GPL_1_0_Only,
    /// The GNU General Public License v1.0 Plus.
    GPL_1_0_Plus,
    /// The GNU General Public License v2.0 only.
    GPL_2_0,
    /// The GNU General Public License v2.0 or later.
    GPL_2_0_Only,
    /// The GNU General Public License v2.0 w/Classpath exception.
    GPL_2_0_Classpath,
    /// The GNU General Public License v2.0 w/Linking exception.
    GPL_2_0_Linking,
    /// The GNU General Public License v2.0 or later.
    GPL_2_0_Plus,
    /// The GNU General Public License v2.0 or later w/Classpath exception.
    GPL_2_0_Plus_Classpath,
    /// The GNU General Public License v3.0 only.
    GPL_3_0,
    /// The GNU General Public License v3.0 or later.
    GPL_3_0_Only,
    /// The GNU General Public License v3.0 or later.
    GPL_3_0_Plus,
    /// The GNU General Public License v3.0 or later w/Classpath exception.
    GPL_3_0_Plus_Classpath,
    /// The Historical Permission Notice and Disclaimer.
    HPND,
    /// The Historical Permission Notice and Disclaimer - sell variant.
    HPND_Sell_Variant,
    /// The Intel ACPI Software License Agreement.
    Intel_ACPI,
    /// The Independent JPEG Group License.
    IJG,
    /// The ImageMagick License.
    ImageMagick,
    /// INRIA Non-Commercial License Agreement for the CompCert verified compiler
    InriaCompCert,
    /// INRIA Non-Commercial License Agreement for IceSL
    InriaIceSL,
    /// The Intel Open Source License.
    Intel,
    /// The IPA Font License.
    IPA,
    /// The IBM Public License v1.0.
    IPL_1_0,
    /// The ISC License.
    ISC,
    /// The GNU Library General Public License v2 only.
    LGPL_2_0,
    /// The GNU Library General Public License v2 only.
    LGPL_2_0_Only,
    /// The GNU Library General Public License v2 or later.
    LGPL_2_0_Plus,
    /// The GNU Library General Public License v2.1 only.
    LGPL_2_1,
    /// The GNU Library General Public License v2.1 only.
    LGPL_2_1_Only,
    /// The GNU Library General Public License v2.1 or later.
    LGPL_2_1_Plus,
    /// The GNU Library General Public License v3 only.
    LGPL_3_0,
    /// The GNU Library General Public License v3 only.
    LGPL_3_0_Only,
    /// The GNU Library General Public License v3 or later.
    LGPL_3_0_Plus,
    /// The Lesser General Public License For Linguistic Resources.
    LGPLLR,
    /// The libpng License.
    Libpng,
    /// The PNG Reference Library version 2.
    Libpng_2_0,
    /// The libtiff License.
    LibTiff,
    /// The LLVM Exception.
    LLVM_exception,
    /// Lisp LGPL; GNU Lesser General Public License version 2.1 with Franz Inc. preamble for clarification of LGPL terms in context of Lisp
    LLGPL_2_1,
    /// The LaTeX Project Public License v1.2.
    LPPL_1_2,
    /// The LaTeX Project Public License v1.3c.
    LPPL_1_3C,
    /// The Lucent Public License v1.02.
    LPL_1_02,
    /// The MirOS License.
    Miros,
    /// The MIT License.
    MIT,
    /// The Mozilla Public License 1.0.
    MPL_1_0,
    /// The Mozilla Public License 1.1.
    MPL_1_1,
    /// The Mozilla Public License 2.0.
    MPL_2_0,
    /// The Microsoft Public License.
    MS_PL,
    /// The NASA Open Source Agreement 1.3.
    NASA_1_3,
    /// The University of Illinois/NCSA Open Source License.
    NCSA,
    /// The Non-Profit Open Software License 3.0.
    NPOSL_3_0,
    /// Obsidian End User Agreement
    Obsidian,
    /// OCamlPro Non Commercial license version 1
    OCamlPro_NC,
    /// The Open Data Commons Open Database License v1.0.
    ODbL_1_0,
    /// The SIL Open Font License 1.0.
    OFL_1_0,
    /// The Open LDAP Public License v2.8.
    OLDAP_2_8,
    /// The OpenSSL License.
    OpenSSL,
    /// The Open Software License 2.0.
    OSL_2_0,
    /// The Open Software License 2.1.
    OSL_2_1,
    /// The Open Software License 3.0.
    OSL_3_0,
    /// The The Parity Public License 7.0.0.
    Parity_7_0_0,
    /// The PHP License v3.01.
    PHP_3_01,
    /// The PostgreSQL License.
    PostgreSQL,
    /// Postman EULA
    Postman,
    /// The Python Software Foundation License 2.0.
    PSF_2_0,
    /// Public Domain
    PublicDomain,
    /// Purdue BSD-Style License
    PurdueBsd,
    /// Prosperity-3.0.0 License.
    Prosperity_3_0_0,
    /// The Qhull License.
    Qhull,
    /// The Q Public License 1.0.
    QPL_1_0,
    /// The Qwt License v1.0
    Qwt,
    /// The Ruby license.
    Ruby,
    /// The Sendmail License.
    Sendmail,
    /// The SGI Free Software License B v2.0.
    SGI_B_2_0,
    /// The Sleepycat License.
    Sleepycat,
    /// SMAIL General Public License
    Smail,
    /// The Server Side Public License, v 1.
    SSPL_1_0,
    /// The Synthesis Tool Kit 4.3
    STK_4_3,
    /// The TCL/TK License.
    TCL,
    /// The Ubuntu Font License 1.0
    UFL_1_0,
    /// Unfree
    UnFree,
    /// Unfree redistributable
    UnFreeRedistributable,
    /// Unfree redistributable firmware
    UnFreeRedistributableFirmware,
    /// The Unicode License Agreement - Data Files and Software (2015).
    Unicode_DFS_2015,
    /// The Unicode License Agreement - Data Files and Software (2015).
    Unicode_DFS_2016,
    /// The The Unlicense.
    Unlicense,
    /// The Universal Permissive License v1.0
    UPL_1_0,
    /// The Vim License.
    Vim,
    /// Oracle VM VirtualBox Extension Pack Personal Use and Evaluation License (PUEL)
    VirtualBox_PUEL,
    /// The Vovida Software License v1.0.
    VSL_1_0,
    /// The Sybase Open Watcom Public License 1.0.
    Watcom_1_0,
    /// The W3C Software Notice and License (2002-12-31).
    W3C,
    /// The Do What The F*ck You Want To Public License.
    WTFPL,
    /// The WxWindows Library Exception 3.1.
    WxWindows_Exception_3_1,
    /// The zlib License.
    Zlib,
    /// The Zope Public License 2.0.
    ZPL_2_0,
    /// The Zope Public License 2.1.
    ZPL_2_1,
}

impl NixLicense {
    /// Whether `s` is a canonical short identifier of the license. Most
    /// licenses have one, a few have several that time has left behind, and
    /// some have none.
    pub open spec fn has_id(self, s: Seq<char>) -> bool {
        match self {
            NixLicense::Abstyles => s == "Abstyles"@,
            NixLicense::AFL_2_0 => s == "AFL-2.0"@,
            NixLicense::AFL_2_1 => s == "AFL-2.1"@,
            NixLicense::AFL_3_0 => s == "AFL-3.0"@,
            NixLicense::AGPL_3_0 => s == "AGPL-3.0"@,
            NixLicense::AGPL_3_0_Only => s == "AGPL-3.0-only"@,
            NixLicense::AGPL_3_0_Plus => s == "AGPL-3.0-or-later"@,
            NixLicense::Apache_2_0 => s == "Apache-2.0"@,
            NixLicense::APSL_2_0 => s == "APSL-2.0"@,
            NixLicense::Artistic_1_0 => s == "Artistic-1.0"@,
            NixLicense::Artistic_2_0 => s == "Artistic-2.0"@,
            NixLicense::Beerware => s == "Beerware"@,
            NixLicense::BlueOak_1_0_0 => s == "BlueOak-1.0.0"@,
            NixLicense::BSD_0 => s == "0BSD"@,
            NixLicense::BSD_1 => s == "BSD-1-Clause"@,
            NixLicense::BSD_2 => s == "BSD-2-Clause"@,
            NixLicense::BSD_2_Patent => s == "BSD-2-Clause-Patent"@,
            NixLicense::BSD_3 => s == "BSD-3-Clause"@,
            NixLicense::BSD_4 => s == "BSD-4-Clause"@,
            NixLicense::BSD_4_UC => s == "BSD-4-Clause-UC"@,
            NixLicense::BSD_Protection => s == "BSD-Protection"@,
            NixLicense::BSL_1_0 => s == "BSL-1.0"@,
            NixLicense::BUSL_1_1 => s == "BUSL-1.1"@,
            NixLicense::ClArtistic => s == "ClArtistic"@,
            NixLicense::CC0_1_0 => s == "CC0-1.0"@,
            NixLicense::CC_BY_NC_SA_2_0 => s == "CC-BY-NC-SA-2.0"@,
            NixLicense::CC_BY_NC_SA_2_5 => s == "CC-BY-NC-SA-2.5"@,
            NixLicense::CC_BY_NC_SA_3_0 => s == "CC-BY-NC-SA-3.0"@,
            NixLicense::CC_BY_NC_SA_4_0 => s == "CC-BY-NC-SA-4.0"@,
            NixLicense::CC_BY_NC_3_0 => s == "CC-BY-NC-3.0"@,
            NixLicense::CC_BY_NC_4_0 => s == "CC-BY-NC-4.0"@,
            NixLicense::CC_BY_ND_3_0 => s == "CC-BY-ND-3.0"@,
            NixLicense::CC_BY_SA_2_5 => s == "CC-BY-SA-2.5"@,
            NixLicense::CC_BY_3_0 => s == "CC-BY-3.0-AT"@,
            NixLicense::CC_BY_SA_3_0 => s == "CC-BY-SA-3.0-AT"@,
            NixLicense::CC_BY_4_0 => s == "CC-BY-4.0"@,
            NixLicense::CC_BY_SA_4_0 => s == "CC-BY-SA-4.0"@,
            NixLicense::CDDL_1_0 => s == "CDDL-1.0"@,
            NixLicense::CECILL_2_0 => s == "CECILL-2.0"@,
            NixLicense::CECILL_B => s == "CECILL-B"@,
            NixLicense::CECILL_C => s == "CECILL-C"@,
            NixLicense::CPAL_1_0 => s == "CPAL-1.0"@,
            NixLicense::CPL_1_0 => s == "CPL-1.0"@,
            NixLicense::Curl => s == "curl"@,
            NixLicense::DOC => s == "DOC"@,
            NixLicense::EFL_1_0 => s == "EFL-1.0"@,
            NixLicense::EFL_2_0 => s == "EFL-2.0"@,
            NixLicense::EPL_1_0 => s == "EPL-1.0"@,
            NixLicense::EPL_2_0 => s == "EPL-2.0"@,
            NixLicense::EUPL_1_1 => s == "EUPL-1.1"@,
            NixLicense::EUPL_1_2 => s == "EUPL-1.2"@,
            NixLicense::FTL => s == "FTL"@,
            NixLicense::GFDL_1_1 => s == "GFDL-1.1"@,
            NixLicense::GFDL_1_1_Only => s == "GFDL-1.1-only"@,
            NixLicense::GFDL_1_1_Plus => s == "GFDL-1.1-or-later"@,
            NixLicense::GFDL_1_2 => s == "GFDL-1.2"@,
            NixLicense::GFDL_1_2_Only => s == "GFDL-1.2-only"@,
            NixLicense::GFDL_1_2_Plus => s == "GFDL-1.2-or-later"@,
            NixLicense::GFDL_1_3 => s == "GFDL-1.3"@,
            NixLicense::GFDL_1_3_Only => s == "GFDL-1.3-only"@,
            NixLicense::GFDL_1_3_Plus => s == "GFDL-1.3-or-later"@,
            NixLicense::GPL_1_0 => s == "GPL-1.0"@,
            NixLicense::GPL_1_0_Only => s == "GPL-1.0-only"@,
            NixLicense::GPL_1_0_Plus => s == "GPL-1.0+"@,
            NixLicense::GPL_2_0 => s == "GPL-2.0"@,
            NixLicense::GPL_2_0_Only => s == "GPL-2.0-only"@,
            NixLicense::GPL_2_0_Classpath => s == "GPL-2.0-with-classpath-exception"@,
            NixLicense::GPL_2_0_Plus => s == "GPL-2.0-or-later"@,
            NixLicense::GPL_3_0_Only => s == "GPL-3.0-only"@,
            NixLicense::GPL_3_0_Plus => s == "GPL-3.0"@ || s == "GPL-3.0+"@ || s == "GPL-3.0-or-later"@,
            NixLicense::GPL_3_0_Plus_Classpath => s == "GPL-3.0-linking-exception"@,
            NixLicense::HPND => s == "HPND"@,
            NixLicense::HPND_Sell_Variant => s == "HPND-sell-variant"@,
            NixLicense::Intel_ACPI => s == "Intel-ACPI"@,
            NixLicense::IJG => s == "IJG"@,
            NixLicense::ImageMagick => s == "ImageMagick"@,
            NixLicense::Intel => s == "Intel"@,
            NixLicense::IPA => s == "IPA"@,
            NixLicense::IPL_1_0 => s == "IPL-1.0"@,
            NixLicense::ISC => s == "ISC"@,
            NixLicense::LGPL_2_0 => s == "LGPL-2.0"@,
            NixLicense::LGPL_2_0_Only => s == "LGPL-2.0-only"@,
            NixLicense::LGPL_2_0_Plus => s == "LGPL-2.0-or-later"@,
            NixLicense::LGPL_2_1 => s == "LGPL-2.1"@,
            NixLicense::LGPL_2_1_Only => s == "LGPL-2.1-only"@,
            NixLicense::LGPL_2_1_Plus => s == "LGPL-2.1+"@ || s == "LGPL-2.1-or-later"@,
            NixLicense::LGPL_3_0 => s == "LGPL-3.0"@,
            NixLicense::LGPL_3_0_Only => s == "LGPL-3.0-only"@,
            NixLicense::LGPL_3_0_Plus => s == "LGPL-3.0-or-later"@ || s == "LGPL-3.0+"@,
            NixLicense::LGPLLR => s == "LGPLLR"@,
            NixLicense::Libpng => s == "Libpng"@,
            NixLicense::Libpng_2_0 => s == "libpng-2.0"@,
            NixLicense::LibTiff => s == "libtiff"@,
            NixLicense::LLVM_exception => s == "LLVM-exception"@,
            NixLicense::LPPL_1_2 => s == "LPPL-1.2"@,
            NixLicense::LPPL_1_3C => s == "LPPL-1.3a"@,
            NixLicense::LPL_1_02 => s == "LPL-1.02"@,
            NixLicense::Miros => s == "MirOS"@,
            NixLicense::MIT => s == "MIT"@,
            NixLicense::MPL_1_0 => s == "MPL-1.0"@,
            NixLicense::MPL_1_1 => s == "MPL-1.1"@,
            NixLicense::MPL_2_0 => s == "MPL-2.0"@,
            NixLicense::MS_PL => s == "MS-PL"@,
            NixLicense::NASA_1_3 => s == "NASA-1.3"@,
            NixLicense::NCSA => s == "NCSA"@,
            NixLicense::NPOSL_3_0 => s == "NPOSL-3.0"@,
            NixLicense::ODbL_1_0 => s == "ODbL-1.0"@,
            NixLicense::OFL_1_0 => s == "OFL-1.0"@,
            NixLicense::OLDAP_2_8 => s == "OLDAP-2.8"@,
            NixLicense::OpenSSL => s == "OpenSSL"@,
            NixLicense::OSL_2_0 => s == "OSL-2.0"@,
            NixLicense::OSL_2_1 => s == "OSL-2.1"@,
            NixLicense::OSL_3_0 => s == "OSL-3.0"@,
            NixLicense::Parity_7_0_0 => s == "Parity-7.0.0"@,
            NixLicense::PHP_3_01 => s == "PHP-3.01"@,
            NixLicense::PostgreSQL => s == "PostgreSQL"@,
            NixLicense::PSF_2_0 => s == "Python-2.0"@,
            NixLicense::Qhull => s == "Qhull"@,
            NixLicense::QPL_1_0 => s == "QPL-1.0"@,
            NixLicense::Ruby => s == "Ruby"@,
            NixLicense::Sendmail => s == "Sendmail"@,
            NixLicense::SGI_B_2_0 => s == "SGI-B-2.0"@,
            NixLicense::Sleepycat => s == "Sleepycat"@,
            NixLicense::SSPL_1_0 => s == "SSPL-1.0"@,
            NixLicense::TCL => s == "TCL"@,
            NixLicense::Unicode_DFS_2015 => s == "Unicode-DFS-2015"@,
            NixLicense::Unicode_DFS_2016 => s == "Unicode-DFS-2016"@,
            NixLicense::Unlicense => s == "Unlicense"@,
            NixLicense::UPL_1_0 => s == "UPL-1.0"@,
            NixLicense::Vim => s == "Vim"@,
            NixLicense::VSL_1_0 => s == "VSL-1.0"@,
            NixLicense::Watcom_1_0 => s == "Watcom-1.0"@,
            NixLicense::W3C => s == "W3C"@,
            NixLicense::WTFPL => s == "WTFPL"@,
            NixLicense::WxWindows_Exception_3_1 => s == "wxWindows"@,
            NixLicense::Zlib => s == "Zlib"@,
            NixLicense::ZPL_2_0 => s == "ZPL-2.0"@,
            NixLicense::ZPL_2_1 => s == "ZPL-2.1"@,
            NixLicense::AMD
            | NixLicense::ASL
            | NixLicense::DataBricks
            | NixLicense::EAPL
            | NixLicense::Elastic
            | NixLicense::Epson
            | NixLicense::FFSL
            | NixLicense::Free
            | NixLicense::G4SL
            | NixLicense::GeoGebra
            | NixLicense::GPL_2_0_Linking
            | NixLicense::GPL_2_0_Plus_Classpath
            | NixLicense::GPL_3_0
            | NixLicense::InriaCompCert
            | NixLicense::InriaIceSL
            | NixLicense::LLGPL_2_1
            | NixLicense::Obsidian
            | NixLicense::OCamlPro_NC
            | NixLicense::Postman
            | NixLicense::PublicDomain
            | NixLicense::PurdueBsd
            | NixLicense::Prosperity_3_0_0
            | NixLicense::Qwt
            | NixLicense::Smail
            | NixLicense::STK_4_3
            | NixLicense::UFL_1_0
            | NixLicense::UnFree
            | NixLicense::UnFreeRedistributable
            | NixLicense::UnFreeRedistributableFirmware
            | NixLicense::VirtualBox_PUEL => false,
        }
    }

    /// The license that the canonical short identifier `s` names, if it names one.
    pub open spec fn spec_from_str(s: Seq<char>) -> Option<NixLicense> {
        if exists|l: NixLicense| l.has_id(s) {
            Some(choose|l: NixLicense| l.has_id(s))
        } else {
            None
        }
    }

    /// The `lib.licenses` attribute reference of a license.
    pub open spec fn nix_meta(self) -> Seq<char> {
        match self {
            NixLicense::Abstyles => "lib.licenses.abstyles"@,
            NixLicense::AFL_2_0 => "lib.licenses.afl20"@,
            NixLicense::AFL_2_1 => "lib.licenses.afl21"@,
            NixLicense::AFL_3_0 => "lib.licenses.afl3"@,
            NixLicense::AGPL_3_0 => "lib.licenses.agpl3"@,
            NixLicense::AGPL_3_0_Only => "lib.licenses.agpl3Only"@,
            NixLicense::AGPL_3_0_Plus => "lib.licenses.agpl3Plus"@,
            NixLicense::AMD => "lib.licenses.amd"@,
            NixLicense::Apache_2_0 => "lib.licenses.asl20"@,
            NixLicense::APSL_2_0 => "lib.licenses.apsl20"@,
            NixLicense::Artistic_1_0 => "lib.licenses.artistic1"@,
            NixLicense::Artistic_2_0 => "lib.licenses.artistic2"@,
            NixLicense::ASL => "lib.licenses.amazonsl"@,
            NixLicense::Beerware => "lib.licenses.beerware"@,
            NixLicense::BlueOak_1_0_0 => "lib.licenses.blueOak100"@,
            NixLicense::BSD_0 => "lib.licenses.bsd0"@,
            NixLicense::BSD_1 => "lib.licenses.bsd1"@,
            NixLicense::BSD_2 => "lib.licenses.bsd2"@,
            NixLicense::BSD_2_Patent => "lib.licenses.bsd2Patent"@,
            NixLicense::BSD_3 => "lib.licenses.bsd3"@,
            NixLicense::BSD_4 => "lib.licenses.bsdOriginal"@,
            NixLicense::BSD_4_UC => "lib.licenses.bsdOriginalUC"@,
            NixLicense::BSD_Protection => "lib.licenses.bsdProtection"@,
            NixLicense::BSL_1_0 => "lib.licenses.boost"@,
            NixLicense::BUSL_1_1 => "lib.licenses.bsl11"@,
            NixLicense::ClArtistic => "lib.licenses.clArtistic"@,
            NixLicense::CC0_1_0 => "lib.licenses.cc0"@,
            NixLicense::CC_BY_NC_SA_2_0 => "lib.licenses.cc-by-nc-sa-20"@,
            NixLicense::CC_BY_NC_SA_2_5 => "lib.licenses.cc-by-nc-sa-25"@,
            NixLicense::CC_BY_NC_SA_3_0 => "lib.licenses.cc-by-nc-sa-30"@,
            NixLicense::CC_BY_NC_SA_4_0 => "lib.licenses.cc-by-nc-sa-40"@,
            NixLicense::CC_BY_NC_3_0 => "lib.licenses.cc-by-nc-30"@,
            NixLicense::CC_BY_NC_4_0 => "lib.licenses.cc-by-nc-40"@,
            NixLicense::CC_BY_ND_3_0 => "lib.licenses.cc-by-nd-30"@,
            NixLicense::CC_BY_SA_2_5 => "lib.licenses.cc-by-sa-25"@,
            NixLicense::CC_BY_3_0 => "lib.licenses.cc-by-30"@,
            NixLicense::CC_BY_SA_3_0 => "lib.licenses.cc-by-sa-30"@,
            NixLicense::CC_BY_4_0 => "lib.licenses.cc-by-40"@,
            NixLicense::CC_BY_SA_4_0 => "lib.licenses.cc-by-sa-40"@,
            NixLicense::CDDL_1_0 => "lib.licenses.cddl"@,
            NixLicense::CECILL_2_0 => "lib.licenses.cecill20"@,
            NixLicense::CECILL_B => "lib.licenses.cecill-b"@,
            NixLicense::CECILL_C => "lib.licenses.cecill-c"@,
            NixLicense::CPAL_1_0 => "lib.licenses.cpal10"@,
            NixLicense::CPL_1_0 => "lib.licenses.cpl10"@,
            NixLicense::Curl => "lib.licenses.curl"@,
            NixLicense::DataBricks => "lib.licenses.databricks"@,
            NixLicense::DOC => "lib.licenses.doc"@,
            NixLicense::EAPL => "lib.licenses.eapl"@,
            NixLicense::EFL_1_0 => "lib.licenses.efl10"@,
            NixLicense::EFL_2_0 => "lib.licenses.efl20"@,
            NixLicense::Elastic => "lib.licenses.elastic"@,
            NixLicense::EPL_1_0 => "lib.licenses.epl10"@,
            NixLicense::EPL_2_0 => "lib.licenses.epl20"@,
            NixLicense::Epson => "lib.licenses.epson"@,
            NixLicense::EUPL_1_1 => "lib.licenses.eupl11"@,
            NixLicense::EUPL_1_2 => "lib.licenses.eupl12"@,
            NixLicense::FFSL => "lib.licenses.ffsl"@,
            NixLicense::Free => "lib.licenses.free"@,
            NixLicense::FTL => "lib.licenses.ftl"@,
            NixLicense::G4SL => "lib.licenses.g4sl"@,
            NixLicense::GeoGebra => "lib.licenses.geogebra"@,
            NixLicense::GFDL_1_1 => "lib.licenses.fdl11"@,
            NixLicense::GFDL_1_1_Only => "lib.licenses.fdl11Only"@,
            NixLicense::GFDL_1_1_Plus => "lib.licenses.fdl11Plus"@,
            NixLicense::GFDL_1_2 => "lib.licenses.fdl12"@,
            NixLicense::GFDL_1_2_Only => "lib.licenses.fdl12Only"@,
            NixLicense::GFDL_1_2_Plus => "lib.licenses.fdl12Plus"@,
            NixLicense::GFDL_1_3 => "lib.licenses.fdl13"@,
            NixLicense::GFDL_1_3_Only => "lib.licenses.fdl13Only"@,
            NixLicense::GFDL_1_3_Plus => "lib.licenses.fdl13Plus"@,
            NixLicense::GPL_1_0 => "lib.licenses.gpl1"@,
            NixLicense::GPL_1_0_Only => "lib.licenses.gpl1Only"@,
            NixLicense::GPL_1_0_Plus => "lib.licenses.gpl1Plus"@,
            NixLicense::GPL_2_0 => "lib.licenses.gpl2"@,
            NixLicense::GPL_2_0_Only => "lib.licenses.gpl2Only"@,
            NixLicense::GPL_2_0_Classpath => "lib.licenses.gpl2Classpath"@,
            NixLicense::GPL_2_0_Linking => "lib.licenses.gpl2Oss"@,
            NixLicense::GPL_2_0_Plus => "lib.licenses.gpl2Plus"@,
            NixLicense::GPL_2_0_Plus_Classpath => "lib.licenses.gpl2ClasspathPlus"@,
            NixLicense::GPL_3_0 => "lib.licenses.gpl3"@,
            NixLicense::GPL_3_0_Only => "lib.licenses.gpl3Only"@,
            NixLicense::GPL_3_0_Plus => "lib.licenses.gpl3Plus"@,
            NixLicense::GPL_3_0_Plus_Classpath => "lib.licenses.gpl3ClasspathPlus"@,
            NixLicense::HPND => "lib.licenses.hpnd"@,
            NixLicense::HPND_Sell_Variant => "lib.licenses.hpndSellVariant"@,
            NixLicense::Intel_ACPI => "lib.licenses.iasl"@,
            NixLicense::IJG => "lib.licenses.ijg"@,
            NixLicense::ImageMagick => "lib.licenses.imagemagick"@,
            NixLicense::InriaCompCert => "lib.licenses.inria-compcert"@,
            NixLicense::InriaIceSL => "lib.licenses.inria-icesl"@,
            NixLicense::Intel => "lib.licenses.issl"@,
            NixLicense::IPA => "lib.licenses.ipa"@,
            NixLicense::IPL_1_0 => "lib.licenses.ipl10"@,
            NixLicense::ISC => "lib.licenses.isc"@,
            NixLicense::LGPL_2_0 => "lib.licenses.lgpl2"@,
            NixLicense::LGPL_2_0_Only => "lib.licenses.lgpl2Only"@,
            NixLicense::LGPL_2_0_Plus => "lib.licenses.lgpl2Plus"@,
            NixLicense::LGPL_2_1 => "lib.licenses.lgpl21"@,
            NixLicense::LGPL_2_1_Only => "lib.licenses.lgpl21Only"@,
            NixLicense::LGPL_2_1_Plus => "lib.licenses.lgpl21Plus"@,
            NixLicense::LGPL_3_0 => "lib.licenses.lgpl3"@,
            NixLicense::LGPL_3_0_Only => "lib.licenses.lgpl3Only"@,
            NixLicense::LGPL_3_0_Plus => "lib.licenses.lgpl3Plus"@,
            NixLicense::LGPLLR => "lib.licenses.lgpllr"@,
            NixLicense::Libpng => "lib.licenses.libpng"@,
            NixLicense::Libpng_2_0 => "lib.licenses.libpng2"@,
            NixLicense::LibTiff => "lib.licenses.libtiff"@,
            NixLicense::LLVM_exception => "lib.licenses.llvm-exception"@,
            NixLicense::LLGPL_2_1 => "lib.licenses.llgpl21"@,
            NixLicense::LPPL_1_2 => "lib.licenses.lppl12"@,
            NixLicense::LPPL_1_3C => "lib.licenses.lppl13c"@,
            NixLicense::LPL_1_02 => "lib.licenses.lpl-102"@,
            NixLicense::Miros => "lib.licenses.miros"@,
            NixLicense::MIT => "lib.licenses.mit"@,
            NixLicense::MPL_1_0 => "lib.licenses.mpl10"@,
            NixLicense::MPL_1_1 => "lib.licenses.mpl11"@,
            NixLicense::MPL_2_0 => "lib.licenses.mpl20"@,
            NixLicense::MS_PL => "lib.licenses.mspl"@,
            NixLicense::NASA_1_3 => "lib.licenses.nasa13"@,
            NixLicense::NCSA => "lib.licenses.ncsa"@,
            NixLicense::NPOSL_3_0 => "lib.licenses.nposl3"@,
            NixLicense::Obsidian => "lib.licenses.obsidian"@,
            NixLicense::OCamlPro_NC => "lib.licenses.ocamlpro_nc"@,
            NixLicense::ODbL_1_0 => "lib.licenses.odbl"@,
            NixLicense::OFL_1_0 => "lib.licenses.ofl"@,
            NixLicense::OLDAP_2_8 => "lib.licenses.openldap"@,
            NixLicense::OpenSSL => "lib.licenses.openssl"@,
            NixLicense::OSL_2_0 => "lib.licenses.osl2"@,
            NixLicense::OSL_2_1 => "lib.licenses.osl21"@,
            NixLicense::OSL_3_0 => "lib.licenses.osl3"@,
            NixLicense::Parity_7_0_0 => "lib.licenses.parity70"@,
            NixLicense::PHP_3_01 => "lib.licenses.php301"@,
            NixLicense::PostgreSQL => "lib.licenses.postgresql"@,
            NixLicense::Postman => "lib.licenses.postman"@,
            NixLicense::PSF_2_0 => "lib.licenses.psfl"@,
            NixLicense::PublicDomain => "lib.licenses.publicDomain"@,
            NixLicense::PurdueBsd => "lib.licenses.purdueBsd"@,
            NixLicense::Prosperity_3_0_0 => "lib.licenses.prosperity30"@,
            NixLicense::Qhull => "lib.licenses.qhull"@,
            NixLicense::QPL_1_0 => "lib.licenses.qpl"@,
            NixLicense::Qwt => "lib.licenses.qwt"@,
            NixLicense::Ruby => "lib.licenses.ruby"@,
            NixLicense::Sendmail => "lib.licenses.sendmail"@,
            NixLicense::SGI_B_2_0 => "lib.licenses.sgi-b-20"@,
            NixLicense::Sleepycat => "lib.licenses.sleepycat"@,
            NixLicense::Smail => "lib.licenses.smail"@,
            NixLicense::SSPL_1_0 => "lib.licenses.sspl"@,
            NixLicense::STK_4_3 => "lib.licenses.stk"@,
            NixLicense::TCL => "lib.licenses.tcltk"@,
            NixLicense::UFL_1_0 => "lib.licenses.ufl"@,
            NixLicense::UnFree => "lib.licenses.unfree"@,
            NixLicense::UnFreeRedistributable => "lib.licenses.unfreeRedistributable"@,
            NixLicense::UnFreeRedistributableFirmware => "lib.licenses.unfreeRedistributableFirmware"@,
            NixLicense::Unicode_DFS_2015 => "lib.licenses.unicode-dfs-2015"@,
            NixLicense::Unicode_DFS_2016 => "lib.licenses.unicode-dfs-2016"@,
            NixLicense::Unlicense => "lib.licenses.unlicense"@,
            NixLicense::UPL_1_0 => "lib.licenses.upl"@,
            NixLicense::Vim => "lib.licenses.vim"@,
            NixLicense::VirtualBox_PUEL => "lib.licenses.virtualbox-puel"@,
            NixLicense::VSL_1_0 => "lib.licenses.vsl10"@,
            NixLicense::Watcom_1_0 => "lib.licenses.watcom"@,
            NixLicense::W3C => "lib.licenses.w3c"@,
            NixLicense::WTFPL => "lib.licenses.wtfpl"@,
            NixLicense::WxWindows_Exception_3_1 => "lib.licenses.wxWindows"@,
            NixLicense::Zlib => "lib.licenses.zlib"@,
            NixLicense::ZPL_2_0 => "lib.licenses.zpl20"@,
            NixLicense::ZPL_2_1 => "lib.licenses.zpl21"@,
        }
    }

    /// Looks a canonical short identifier up. A text that names no license
    /// gives `None`: the lookup never fails in any other way.
    pub fn from_str(s: &str) -> (r: Option<&'static Self>)
        ensures
            match r {
                Some(l) => l.has_id(s@) && Self::spec_from_str(s@) == Some(*l),
                None => Self::spec_from_str(s@) is None && forall|l: NixLicense| !l.has_id(s@),
            },
    {
        let r = Self::lookup(s);
        proof {
            if let Some(l) = r {
                Self::lemma_id_names_one(*l, choose|k: NixLicense| k.has_id(s@), s@);
            }
        }
        r
    }

    /// Walks the table of identifiers.
    #[verifier::rlimit(100)]
    fn lookup(s: &str) -> (r: Option<&'static Self>)
        ensures
            match r {
                Some(l) => l.has_id(s@),
                None => forall|l: NixLicense| !l.has_id(s@),
            },
    {
        if str_eq(s, "Abstyles") {
            return Some(&NixLicense::Abstyles);
        }
        if str_eq(s, "AFL-2.0") {
            return Some(&NixLicense::AFL_2_0);
        }
        if str_eq(s, "AFL-2.1") {
            return Some(&NixLicense::AFL_2_1);
        }
        if str_eq(s, "AFL-3.0") {
            return Some(&NixLicense::AFL_3_0);
        }
        if str_eq(s, "AGPL-3.0") {
            return Some(&NixLicense::AGPL_3_0);
        }
        if str_eq(s, "AGPL-3.0-only") {
            return Some(&NixLicense::AGPL_3_0_Only);
        }
        if str_eq(s, "AGPL-3.0-or-later") {
            return Some(&NixLicense::AGPL_3_0_Plus);
        }
        if str_eq(s, "Apache-2.0") {
            return Some(&NixLicense::Apache_2_0);
        }
        if str_eq(s, "APSL-2.0") {
            return Some(&NixLicense::APSL_2_0);
        }
        if str_eq(s, "Artistic-1.0") {
            return Some(&NixLicense::Artistic_1_0);
        }
        if str_eq(s, "Artistic-2.0") {
            return Some(&NixLicense::Artistic_2_0);
        }
        if str_eq(s, "Beerware") {
            return Some(&NixLicense::Beerware);
        }
        if str_eq(s, "BlueOak-1.0.0") {
            return Some(&NixLicense::BlueOak_1_0_0);
        }
        if str_eq(s, "0BSD") {
            return Some(&NixLicense::BSD_0);
        }
        if str_eq(s, "BSD-1-Clause") {
            return Some(&NixLicense::BSD_1);
        }
        if str_eq(s, "BSD-2-Clause") {
            return Some(&NixLicense::BSD_2);
        }
        if str_eq(s, "BSD-2-Clause-Patent") {
            return Some(&NixLicense::BSD_2_Patent);
        }
        if str_eq(s, "BSD-3-Clause") {
            return Some(&NixLicense::BSD_3);
        }
        if str_eq(s, "BSD-4-Clause") {
            return Some(&NixLicense::BSD_4);
        }
        if str_eq(s, "BSD-4-Clause-UC") {
            return Some(&NixLicense::BSD_4_UC);
        }
        if str_eq(s, "BSD-Protection") {
            return Some(&NixLicense::BSD_Protection);
        }
        if str_eq(s, "BSL-1.0") {
            return Some(&NixLicense::BSL_1_0);
        }
        if str_eq(s, "BUSL-1.1") {
            return Some(&NixLicense::BUSL_1_1);
        }
        if str_eq(s, "ClArtistic") {
            return Some(&NixLicense::ClArtistic);
        }
        if str_eq(s, "CC0-1.0") {
            return Some(&NixLicense::CC0_1_0);
        }
        if str_eq(s, "CC-BY-NC-SA-2.0") {
            return Some(&NixLicense::CC_BY_NC_SA_2_0);
        }
        if str_eq(s, "CC-BY-NC-SA-2.5") {
            return Some(&NixLicense::CC_BY_NC_SA_2_5);
        }
        if str_eq(s, "CC-BY-NC-SA-3.0") {
            return Some(&NixLicense::CC_BY_NC_SA_3_0);
        }
        if str_eq(s, "CC-BY-NC-SA-4.0") {
            return Some(&NixLicense::CC_BY_NC_SA_4_0);
        }
        if str_eq(s, "CC-BY-NC-3.0") {
            return Some(&NixLicense::CC_BY_NC_3_0);
        }
        if str_eq(s, "CC-BY-NC-4.0") {
            return Some(&NixLicense::CC_BY_NC_4_0);
        }
        if str_eq(s, "CC-BY-ND-3.0") {
            return Some(&NixLicense::CC_BY_ND_3_0);
        }
        if str_eq(s, "CC-BY-SA-2.5") {
            return Some(&NixLicense::CC_BY_SA_2_5);
        }
        if str_eq(s, "CC-BY-3.0-AT") {
            return Some(&NixLicense::CC_BY_3_0);
        }
        if str_eq(s, "CC-BY-SA-3.0-AT") {
            return Some(&NixLicense::CC_BY_SA_3_0);
        }
        if str_eq(s, "CC-BY-4.0") {
            return Some(&NixLicense::CC_BY_4_0);
        }
        if str_eq(s, "CC-BY-SA-4.0") {
            return Some(&NixLicense::CC_BY_SA_4_0);
        }
        if str_eq(s, "CDDL-1.0") {
            return Some(&NixLicense::CDDL_1_0);
        }
        if str_eq(s, "CECILL-2.0") {
            return Some(&NixLicense::CECILL_2_0);
        }
        if str_eq(s, "CECILL-B") {
            return Some(&NixLicense::CECILL_B);
        }
        if str_eq(s, "CECILL-C") {
            return Some(&NixLicense::CECILL_C);
        }
        if str_eq(s, "CPAL-1.0") {
            return Some(&NixLicense::CPAL_1_0);
        }
        if str_eq(s, "CPL-1.0") {
            return Some(&NixLicense::CPL_1_0);
        }
        if str_eq(s, "curl") {
            return Some(&NixLicense::Curl);
        }
        if str_eq(s, "DOC") {
            return Some(&NixLicense::DOC);
        }
        if str_eq(s, "EFL-1.0") {
            return Some(&NixLicense::EFL_1_0);
        }
        if str_eq(s, "EFL-2.0") {
            return Some(&NixLicense::EFL_2_0);
        }
        if str_eq(s, "EPL-1.0") {
            return Some(&NixLicense::EPL_1_0);
        }
        if str_eq(s, "EPL-2.0") {
            return Some(&NixLicense::EPL_2_0);
        }
        if str_eq(s, "EUPL-1.1") {
            return Some(&NixLicense::EUPL_1_1);
        }
        if str_eq(s, "EUPL-1.2") {
            return Some(&NixLicense::EUPL_1_2);
        }
        if str_eq(s, "FTL") {
            return Some(&NixLicense::FTL);
        }
        if str_eq(s, "GFDL-1.1") {
            return Some(&NixLicense::GFDL_1_1);
        }
        if str_eq(s, "GFDL-1.1-only") {
            return Some(&NixLicense::GFDL_1_1_Only);
        }
        if str_eq(s, "GFDL-1.1-or-later") {
            return Some(&NixLicense::GFDL_1_1_Plus);
        }
        if str_eq(s, "GFDL-1.2") {
            return Some(&NixLicense::GFDL_1_2);
        }
        if str_eq(s, "GFDL-1.2-only") {
            return Some(&NixLicense::GFDL_1_2_Only);
        }
        if str_eq(s, "GFDL-1.2-or-later") {
            return Some(&NixLicense::GFDL_1_2_Plus);
        }
        if str_eq(s, "GFDL-1.3") {
            return Some(&NixLicense::GFDL_1_3);
        }
        if str_eq(s, "GFDL-1.3-only") {
            return Some(&NixLicense::GFDL_1_3_Only);
        }
        if str_eq(s, "GFDL-1.3-or-later") {
            return Some(&NixLicense::GFDL_1_3_Plus);
        }
        if str_eq(s, "GPL-1.0") {
            return Some(&NixLicense::GPL_1_0);
        }
        if str_eq(s, "GPL-1.0-only") {
            return Some(&NixLicense::GPL_1_0_Only);
        }
        if str_eq(s, "GPL-1.0+") {
            return Some(&NixLicense::GPL_1_0_Plus);
        }
        if str_eq(s, "GPL-2.0") {
            return Some(&NixLicense::GPL_2_0);
        }
        if str_eq(s, "GPL-2.0-only") {
            return Some(&NixLicense::GPL_2_0_Only);
        }
        if str_eq(s, "GPL-2.0-with-classpath-exception") {
            return Some(&NixLicense::GPL_2_0_Classpath);
        }
        if str_eq(s, "GPL-2.0-or-later") {
            return Some(&NixLicense::GPL_2_0_Plus);
        }
        if str_eq(s, "GPL-3.0") {
            return Some(&NixLicense::GPL_3_0_Plus);
        }
        if str_eq(s, "GPL-3.0-only") {
            return Some(&NixLicense::GPL_3_0_Only);
        }
        if str_eq(s, "GPL-3.0+") {
            return Some(&NixLicense::GPL_3_0_Plus);
        }
        if str_eq(s, "GPL-3.0-or-later") {
            return Some(&NixLicense::GPL_3_0_Plus);
        }
        if str_eq(s, "GPL-3.0-linking-exception") {
            return Some(&NixLicense::GPL_3_0_Plus_Classpath);
        }
        if str_eq(s, "HPND") {
            return Some(&NixLicense::HPND);
        }
        if str_eq(s, "HPND-sell-variant") {
            return Some(&NixLicense::HPND_Sell_Variant);
        }
        if str_eq(s, "Intel-ACPI") {
            return Some(&NixLicense::Intel_ACPI);
        }
        if str_eq(s, "IJG") {
            return Some(&NixLicense::IJG);
        }
        if str_eq(s, "ImageMagick") {
            return Some(&NixLicense::ImageMagick);
        }
        if str_eq(s, "Intel") {
            return Some(&NixLicense::Intel);
        }
        if str_eq(s, "IPA") {
            return Some(&NixLicense::IPA);
        }
        if str_eq(s, "IPL-1.0") {
            return Some(&NixLicense::IPL_1_0);
        }
        if str_eq(s, "ISC") {
            return Some(&NixLicense::ISC);
        }
        if str_eq(s, "LGPL-2.0") {
            return Some(&NixLicense::LGPL_2_0);
        }
        if str_eq(s, "LGPL-2.0-only") {
            return Some(&NixLicense::LGPL_2_0_Only);
        }
        if str_eq(s, "LGPL-2.0-or-later") {
            return Some(&NixLicense::LGPL_2_0_Plus);
        }
        if str_eq(s, "LGPL-2.1") {
            return Some(&NixLicense::LGPL_2_1);
        }
        if str_eq(s, "LGPL-2.1-only") {
            return Some(&NixLicense::LGPL_2_1_Only);
        }
        if str_eq(s, "LGPL-2.1+") {
            return Some(&NixLicense::LGPL_2_1_Plus);
        }
        if str_eq(s, "LGPL-2.1-or-later") {
            return Some(&NixLicense::LGPL_2_1_Plus);
        }
        if str_eq(s, "LGPL-3.0") {
            return Some(&NixLicense::LGPL_3_0);
        }
        if str_eq(s, "LGPL-3.0-only") {
            return Some(&NixLicense::LGPL_3_0_Only);
        }
        if str_eq(s, "LGPL-3.0-or-later") {
            return Some(&NixLicense::LGPL_3_0_Plus);
        }
        if str_eq(s, "LGPL-3.0+") {
            return Some(&NixLicense::LGPL_3_0_Plus);
        }
        if str_eq(s, "LGPLLR") {
            return Some(&NixLicense::LGPLLR);
        }
        if str_eq(s, "Libpng") {
            return Some(&NixLicense::Libpng);
        }
        if str_eq(s, "libpng-2.0") {
            return Some(&NixLicense::Libpng_2_0);
        }
        if str_eq(s, "libtiff") {
            return Some(&NixLicense::LibTiff);
        }
        if str_eq(s, "LLVM-exception") {
            return Some(&NixLicense::LLVM_exception);
        }
        if str_eq(s, "LPPL-1.2") {
            return Some(&NixLicense::LPPL_1_2);
        }
        if str_eq(s, "LPPL-1.3a") {
            return Some(&NixLicense::LPPL_1_3C);
        }
        if str_eq(s, "LPL-1.02") {
            return Some(&NixLicense::LPL_1_02);
        }
        if str_eq(s, "MirOS") {
            return Some(&NixLicense::Miros);
        }
        if str_eq(s, "MIT") {
            return Some(&NixLicense::MIT);
        }
        if str_eq(s, "MPL-1.0") {
            return Some(&NixLicense::MPL_1_0);
        }
        if str_eq(s, "MPL-1.1") {
            return Some(&NixLicense::MPL_1_1);
        }
        if str_eq(s, "MPL-2.0") {
            return Some(&NixLicense::MPL_2_0);
        }
        if str_eq(s, "MS-PL") {
            return Some(&NixLicense::MS_PL);
        }
        if str_eq(s, "NASA-1.3") {
            return Some(&NixLicense::NASA_1_3);
        }
        if str_eq(s, "NCSA") {
            return Some(&NixLicense::NCSA);
        }
        if str_eq(s, "NPOSL-3.0") {
            return Some(&NixLicense::NPOSL_3_0);
        }
        if str_eq(s, "ODbL-1.0") {
            return Some(&NixLicense::ODbL_1_0);
        }
        if str_eq(s, "OFL-1.0") {
            return Some(&NixLicense::OFL_1_0);
        }
        if str_eq(s, "OLDAP-2.8") {
            return Some(&NixLicense::OLDAP_2_8);
        }
        if str_eq(s, "OpenSSL") {
            return Some(&NixLicense::OpenSSL);
        }
        if str_eq(s, "OSL-2.0") {
            return Some(&NixLicense::OSL_2_0);
        }
        if str_eq(s, "OSL-2.1") {
            return Some(&NixLicense::OSL_2_1);
        }
        if str_eq(s, "OSL-3.0") {
            return Some(&NixLicense::OSL_3_0);
        }
        if str_eq(s, "Parity-7.0.0") {
            return Some(&NixLicense::Parity_7_0_0);
        }
        if str_eq(s, "PHP-3.01") {
            return Some(&NixLicense::PHP_3_01);
        }
        if str_eq(s, "PostgreSQL") {
            return Some(&NixLicense::PostgreSQL);
        }
        if str_eq(s, "Python-2.0") {
            return Some(&NixLicense::PSF_2_0);
        }
        if str_eq(s, "Qhull") {
            return Some(&NixLicense::Qhull);
        }
        if str_eq(s, "QPL-1.0") {
            return Some(&NixLicense::QPL_1_0);
        }
        if str_eq(s, "Ruby") {
            return Some(&NixLicense::Ruby);
        }
        if str_eq(s, "Sendmail") {
            return Some(&NixLicense::Sendmail);
        }
        if str_eq(s, "SGI-B-2.0") {
            return Some(&NixLicense::SGI_B_2_0);
        }
        if str_eq(s, "Sleepycat") {
            return Some(&NixLicense::Sleepycat);
        }
        if str_eq(s, "SSPL-1.0") {
            return Some(&NixLicense::SSPL_1_0);
        }
        if str_eq(s, "TCL") {
            return Some(&NixLicense::TCL);
        }
        if str_eq(s, "Unicode-DFS-2015") {
            return Some(&NixLicense::Unicode_DFS_2015);
        }
        if str_eq(s, "Unicode-DFS-2016") {
            return Some(&NixLicense::Unicode_DFS_2016);
        }
        if str_eq(s, "Unlicense") {
            return Some(&NixLicense::Unlicense);
        }
        if str_eq(s, "UPL-1.0") {
            return Some(&NixLicense::UPL_1_0);
        }
        if str_eq(s, "Vim") {
            return Some(&NixLicense::Vim);
        }
        if str_eq(s, "VSL-1.0") {
            return Some(&NixLicense::VSL_1_0);
        }
        if str_eq(s, "Watcom-1.0") {
            return Some(&NixLicense::Watcom_1_0);
        }
        if str_eq(s, "W3C") {
            return Some(&NixLicense::W3C);
        }
        if str_eq(s, "WTFPL") {
            return Some(&NixLicense::WTFPL);
        }
        if str_eq(s, "wxWindows") {
            return Some(&NixLicense::WxWindows_Exception_3_1);
        }
        if str_eq(s, "Zlib") {
            return Some(&NixLicense::Zlib);
        }
        if str_eq(s, "ZPL-2.0") {
            return Some(&NixLicense::ZPL_2_0);
        }
        if str_eq(s, "ZPL-2.1") {
            return Some(&NixLicense::ZPL_2_1);
        }
        None
    }

    /// The `lib.licenses` attribute reference of a license, as text.
    pub fn to_nix_meta(self) -> (r: &'static str)
        ensures
            r@ == self.nix_meta(),
    {
        match self {
            NixLicense::Abstyles => "lib.licenses.abstyles",
            NixLicense::AFL_2_0 => "lib.licenses.afl20",
            NixLicense::AFL_2_1 => "lib.licenses.afl21",
            NixLicense::AFL_3_0 => "lib.licenses.afl3",
            NixLicense::AGPL_3_0 => "lib.licenses.agpl3",
            NixLicense::AGPL_3_0_Only => "lib.licenses.agpl3Only",
            NixLicense::AGPL_3_0_Plus => "lib.licenses.agpl3Plus",
            NixLicense::AMD => "lib.licenses.amd",
            NixLicense::Apache_2_0 => "lib.licenses.asl20",
            NixLicense::APSL_2_0 => "lib.licenses.apsl20",
            NixLicense::Artistic_1_0 => "lib.licenses.artistic1",
            NixLicense::Artistic_2_0 => "lib.licenses.artistic2",
            NixLicense::ASL => "lib.licenses.amazonsl",
            NixLicense::Beerware => "lib.licenses.beerware",
            NixLicense::BlueOak_1_0_0 => "lib.licenses.blueOak100",
            NixLicense::BSD_0 => "lib.licenses.bsd0",
            NixLicense::BSD_1 => "lib.licenses.bsd1",
            NixLicense::BSD_2 => "lib.licenses.bsd2",
            NixLicense::BSD_2_Patent => "lib.licenses.bsd2Patent",
            NixLicense::BSD_3 => "lib.licenses.bsd3",
            NixLicense::BSD_4 => "lib.licenses.bsdOriginal",
            NixLicense::BSD_4_UC => "lib.licenses.bsdOriginalUC",
            NixLicense::BSD_Protection => "lib.licenses.bsdProtection",
            NixLicense::BSL_1_0 => "lib.licenses.boost",
            NixLicense::BUSL_1_1 => "lib.licenses.bsl11",
            NixLicense::ClArtistic => "lib.licenses.clArtistic",
            NixLicense::CC0_1_0 => "lib.licenses.cc0",
            NixLicense::CC_BY_NC_SA_2_0 => "lib.licenses.cc-by-nc-sa-20",
            NixLicense::CC_BY_NC_SA_2_5 => "lib.licenses.cc-by-nc-sa-25",
            NixLicense::CC_BY_NC_SA_3_0 => "lib.licenses.cc-by-nc-sa-30",
            NixLicense::CC_BY_NC_SA_4_0 => "lib.licenses.cc-by-nc-sa-40",
            NixLicense::CC_BY_NC_3_0 => "lib.licenses.cc-by-nc-30",
            NixLicense::CC_BY_NC_4_0 => "lib.licenses.cc-by-nc-40",
            NixLicense::CC_BY_ND_3_0 => "lib.licenses.cc-by-nd-30",
            NixLicense::CC_BY_SA_2_5 => "lib.licenses.cc-by-sa-25",
            NixLicense::CC_BY_3_0 => "lib.licenses.cc-by-30",
            NixLicense::CC_BY_SA_3_0 => "lib.licenses.cc-by-sa-30",
            NixLicense::CC_BY_4_0 => "lib.licenses.cc-by-40",
            NixLicense::CC_BY_SA_4_0 => "lib.licenses.cc-by-sa-40",
            NixLicense::CDDL_1_0 => "lib.licenses.cddl",
            NixLicense::CECILL_2_0 => "lib.licenses.cecill20",
            NixLicense::CECILL_B => "lib.licenses.cecill-b",
            NixLicense::CECILL_C => "lib.licenses.cecill-c",
            NixLicense::CPAL_1_0 => "lib.licenses.cpal10",
            NixLicense::CPL_1_0 => "lib.licenses.cpl10",
            NixLicense::Curl => "lib.licenses.curl",
            NixLicense::DataBricks => "lib.licenses.databricks",
            NixLicense::DOC => "lib.licenses.doc",
            NixLicense::EAPL => "lib.licenses.eapl",
            NixLicense::EFL_1_0 => "lib.licenses.efl10",
            NixLicense::EFL_2_0 => "lib.licenses.efl20",
            NixLicense::Elastic => "lib.licenses.elastic",
            NixLicense::EPL_1_0 => "lib.licenses.epl10",
            NixLicense::EPL_2_0 => "lib.licenses.epl20",
            NixLicense::Epson => "lib.licenses.epson",
            NixLicense::EUPL_1_1 => "lib.licenses.eupl11",
            NixLicense::EUPL_1_2 => "lib.licenses.eupl12",
            NixLicense::FFSL => "lib.licenses.ffsl",
            NixLicense::Free => "lib.licenses.free",
            NixLicense::FTL => "lib.licenses.ftl",
            NixLicense::G4SL => "lib.licenses.g4sl",
            NixLicense::GeoGebra => "lib.licenses.geogebra",
            NixLicense::GFDL_1_1 => "lib.licenses.fdl11",
            NixLicense::GFDL_1_1_Only => "lib.licenses.fdl11Only",
            NixLicense::GFDL_1_1_Plus => "lib.licenses.fdl11Plus",
            NixLicense::GFDL_1_2 => "lib.licenses.fdl12",
            NixLicense::GFDL_1_2_Only => "lib.licenses.fdl12Only",
            NixLicense::GFDL_1_2_Plus => "lib.licenses.fdl12Plus",
            NixLicense::GFDL_1_3 => "lib.licenses.fdl13",
            NixLicense::GFDL_1_3_Only => "lib.licenses.fdl13Only",
            NixLicense::GFDL_1_3_Plus => "lib.licenses.fdl13Plus",
            NixLicense::GPL_1_0 => "lib.licenses.gpl1",
            NixLicense::GPL_1_0_Only => "lib.licenses.gpl1Only",
            NixLicense::GPL_1_0_Plus => "lib.licenses.gpl1Plus",
            NixLicense::GPL_2_0 => "lib.licenses.gpl2",
            NixLicense::GPL_2_0_Only => "lib.licenses.gpl2Only",
            NixLicense::GPL_2_0_Classpath => "lib.licenses.gpl2Classpath",
            NixLicense::GPL_2_0_Linking => "lib.licenses.gpl2Oss",
            NixLicense::GPL_2_0_Plus => "lib.licenses.gpl2Plus",
            NixLicense::GPL_2_0_Plus_Classpath => "lib.licenses.gpl2ClasspathPlus",
            NixLicense::GPL_3_0 => "lib.licenses.gpl3",
            NixLicense::GPL_3_0_Only => "lib.licenses.gpl3Only",
            NixLicense::GPL_3_0_Plus => "lib.licenses.gpl3Plus",
            NixLicense::GPL_3_0_Plus_Classpath => "lib.licenses.gpl3ClasspathPlus",
            NixLicense::HPND => "lib.licenses.hpnd",
            NixLicense::HPND_Sell_Variant => "lib.licenses.hpndSellVariant",
            NixLicense::Intel_ACPI => "lib.licenses.iasl",
            NixLicense::IJG => "lib.licenses.ijg",
            NixLicense::ImageMagick => "lib.licenses.imagemagick",
            NixLicense::InriaCompCert => "lib.licenses.inria-compcert",
            NixLicense::InriaIceSL => "lib.licenses.inria-icesl",
            NixLicense::Intel => "lib.licenses.issl",
            NixLicense::IPA => "lib.licenses.ipa",
            NixLicense::IPL_1_0 => "lib.licenses.ipl10",
            NixLicense::ISC => "lib.licenses.isc",
            NixLicense::LGPL_2_0 => "lib.licenses.lgpl2",
            NixLicense::LGPL_2_0_Only => "lib.licenses.lgpl2Only",
            NixLicense::LGPL_2_0_Plus => "lib.licenses.lgpl2Plus",
            NixLicense::LGPL_2_1 => "lib.licenses.lgpl21",
            NixLicense::LGPL_2_1_Only => "lib.licenses.lgpl21Only",
            NixLicense::LGPL_2_1_Plus => "lib.licenses.lgpl21Plus",
            NixLicense::LGPL_3_0 => "lib.licenses.lgpl3",
            NixLicense::LGPL_3_0_Only => "lib.licenses.lgpl3Only",
            NixLicense::LGPL_3_0_Plus => "lib.licenses.lgpl3Plus",
            NixLicense::LGPLLR => "lib.licenses.lgpllr",
            NixLicense::Libpng => "lib.licenses.libpng",
            NixLicense::Libpng_2_0 => "lib.licenses.libpng2",
            NixLicense::LibTiff => "lib.licenses.libtiff",
            NixLicense::LLVM_exception => "lib.licenses.llvm-exception",
            NixLicense::LLGPL_2_1 => "lib.licenses.llgpl21",
            NixLicense::LPPL_1_2 => "lib.licenses.lppl12",
            NixLicense::LPPL_1_3C => "lib.licenses.lppl13c",
            NixLicense::LPL_1_02 => "lib.licenses.lpl-102",
            NixLicense::Miros => "lib.licenses.miros",
            NixLicense::MIT => "lib.licenses.mit",
            NixLicense::MPL_1_0 => "lib.licenses.mpl10",
            NixLicense::MPL_1_1 => "lib.licenses.mpl11",
            NixLicense::MPL_2_0 => "lib.licenses.mpl20",
            NixLicense::MS_PL => "lib.licenses.mspl",
            NixLicense::NASA_1_3 => "lib.licenses.nasa13",
            NixLicense::NCSA => "lib.licenses.ncsa",
            NixLicense::NPOSL_3_0 => "lib.licenses.nposl3",
            NixLicense::Obsidian => "lib.licenses.obsidian",
            NixLicense::OCamlPro_NC => "lib.licenses.ocamlpro_nc",
            NixLicense::ODbL_1_0 => "lib.licenses.odbl",
            NixLicense::OFL_1_0 => "lib.licenses.ofl",
            NixLicense::OLDAP_2_8 => "lib.licenses.openldap",
            NixLicense::OpenSSL => "lib.licenses.openssl",
            NixLicense::OSL_2_0 => "lib.licenses.osl2",
            NixLicense::OSL_2_1 => "lib.licenses.osl21",
            NixLicense::OSL_3_0 => "lib.licenses.osl3",
            NixLicense::Parity_7_0_0 => "lib.licenses.parity70",
            NixLicense::PHP_3_01 => "lib.licenses.php301",
            NixLicense::PostgreSQL => "lib.licenses.postgresql",
            NixLicense::Postman => "lib.licenses.postman",
            NixLicense::PSF_2_0 => "lib.licenses.psfl",
            NixLicense::PublicDomain => "lib.licenses.publicDomain",
            NixLicense::PurdueBsd => "lib.licenses.purdueBsd",
            NixLicense::Prosperity_3_0_0 => "lib.licenses.prosperity30",
            NixLicense::Qhull => "lib.licenses.qhull",
            NixLicense::QPL_1_0 => "lib.licenses.qpl",
            NixLicense::Qwt => "lib.licenses.qwt",
            NixLicense::Ruby => "lib.licenses.ruby",
            NixLicense::Sendmail => "lib.licenses.sendmail",
            NixLicense::SGI_B_2_0 => "lib.licenses.sgi-b-20",
            NixLicense::Sleepycat => "lib.licenses.sleepycat",
            NixLicense::Smail => "lib.licenses.smail",
            NixLicense::SSPL_1_0 => "lib.licenses.sspl",
            NixLicense::STK_4_3 => "lib.licenses.stk",
            NixLicense::TCL => "lib.licenses.tcltk",
            NixLicense::UFL_1_0 => "lib.licenses.ufl",
            NixLicense::UnFree => "lib.licenses.unfree",
            NixLicense::UnFreeRedistributable => "lib.licenses.unfreeRedistributable",
            NixLicense::UnFreeRedistributableFirmware => "lib.licenses.unfreeRedistributableFirmware",
            NixLicense::Unicode_DFS_2015 => "lib.licenses.unicode-dfs-2015",
            NixLicense::Unicode_DFS_2016 => "lib.licenses.unicode-dfs-2016",
            NixLicense::Unlicense => "lib.licenses.unlicense",
            NixLicense::UPL_1_0 => "lib.licenses.upl",
            NixLicense::Vim => "lib.licenses.vim",
            NixLicense::VirtualBox_PUEL => "lib.licenses.virtualbox-puel",
            NixLicense::VSL_1_0 => "lib.licenses.vsl10",
            NixLicense::Watcom_1_0 => "lib.licenses.watcom",
            NixLicense::W3C => "lib.licenses.w3c",
            NixLicense::WTFPL => "lib.licenses.wtfpl",
            NixLicense::WxWindows_Exception_3_1 => "lib.licenses.wxWindows",
            NixLicense::Zlib => "lib.licenses.zlib",
            NixLicense::ZPL_2_0 => "lib.licenses.zpl20",
            NixLicense::ZPL_2_1 => "lib.licenses.zpl21",
        }
    }

    /// No two licenses share a canonical short identifier.
    pub proof fn lemma_id_names_one(a: NixLicense, b: NixLicense, s: Seq<char>)
        requires
            a.has_id(s),
            b.has_id(s),
        ensures
            a == b,
    {
        Self::lemma_equal_ids(a, s, b, s);
    }

    #[verifier::rlimit(100)]
    #[verifier::spinoff_prover]
    proof fn lemma_equal_ids(a: NixLicense, s: Seq<char>, b: NixLicense, t: Seq<char>)
        requires
            a.has_id(s),
            b.has_id(t),
            s == t,
        ensures
            a == b,
    {
        reveal_strlit("Abstyles");
        reveal_strlit("AFL-2.0");
        reveal_strlit("AFL-2.1");
        reveal_strlit("AFL-3.0");
        reveal_strlit("AGPL-3.0");
        reveal_strlit("AGPL-3.0-only");
        reveal_strlit("AGPL-3.0-or-later");
        reveal_strlit("Apache-2.0");
        reveal_strlit("APSL-2.0");
        reveal_strlit("Artistic-1.0");
        reveal_strlit("Artistic-2.0");
        reveal_strlit("Beerware");
        reveal_strlit("BlueOak-1.0.0");
        reveal_strlit("0BSD");
        reveal_strlit("BSD-1-Clause");
        reveal_strlit("BSD-2-Clause");
        reveal_strlit("BSD-2-Clause-Patent");
        reveal_strlit("BSD-3-Clause");
        reveal_strlit("BSD-4-Clause");
        reveal_strlit("BSD-4-Clause-UC");
        reveal_strlit("BSD-Protection");
        reveal_strlit("BSL-1.0");
        reveal_strlit("BUSL-1.1");
        reveal_strlit("ClArtistic");
        reveal_strlit("CC0-1.0");
        reveal_strlit("CC-BY-NC-SA-2.0");
        reveal_strlit("CC-BY-NC-SA-2.5");
        reveal_strlit("CC-BY-NC-SA-3.0");
        reveal_strlit("CC-BY-NC-SA-4.0");
        reveal_strlit("CC-BY-NC-3.0");
        reveal_strlit("CC-BY-NC-4.0");
        reveal_strlit("CC-BY-ND-3.0");
        reveal_strlit("CC-BY-SA-2.5");
        reveal_strlit("CC-BY-3.0-AT");
        reveal_strlit("CC-BY-SA-3.0-AT");
        reveal_strlit("CC-BY-4.0");
        reveal_strlit("CC-BY-SA-4.0");
        reveal_strlit("CDDL-1.0");
        reveal_strlit("CECILL-2.0");
        reveal_strlit("CECILL-B");
        reveal_strlit("CECILL-C");
        reveal_strlit("CPAL-1.0");
        reveal_strlit("CPL-1.0");
        reveal_strlit("curl");
        reveal_strlit("DOC");
        reveal_strlit("EFL-1.0");
        reveal_strlit("EFL-2.0");
        reveal_strlit("EPL-1.0");
        reveal_strlit("EPL-2.0");
        reveal_strlit("EUPL-1.1");
        reveal_strlit("EUPL-1.2");
        reveal_strlit("FTL");
        reveal_strlit("GFDL-1.1");
        reveal_strlit("GFDL-1.1-only");
        reveal_strlit("GFDL-1.1-or-later");
        reveal_strlit("GFDL-1.2");
        reveal_strlit("GFDL-1.2-only");
        reveal_strlit("GFDL-1.2-or-later");
        reveal_strlit("GFDL-1.3");
        reveal_strlit("GFDL-1.3-only");
        reveal_strlit("GFDL-1.3-or-later");
        reveal_strlit("GPL-1.0");
        reveal_strlit("GPL-1.0-only");
        reveal_strlit("GPL-1.0+");
        reveal_strlit("GPL-2.0");
        reveal_strlit("GPL-2.0-only");
        reveal_strlit("GPL-2.0-with-classpath-exception");
        reveal_strlit("GPL-2.0-or-later");
        reveal_strlit("GPL-3.0");
        reveal_strlit("GPL-3.0-only");
        reveal_strlit("GPL-3.0+");
        reveal_strlit("GPL-3.0-or-later");
        reveal_strlit("GPL-3.0-linking-exception");
        reveal_strlit("HPND");
        reveal_strlit("HPND-sell-variant");
        reveal_strlit("Intel-ACPI");
        reveal_strlit("IJG");
        reveal_strlit("ImageMagick");
        reveal_strlit("Intel");
        reveal_strlit("IPA");
        reveal_strlit("IPL-1.0");
        reveal_strlit("ISC");
        reveal_strlit("LGPL-2.0");
        reveal_strlit("LGPL-2.0-only");
        reveal_strlit("LGPL-2.0-or-later");
        reveal_strlit("LGPL-2.1");
        reveal_strlit("LGPL-2.1-only");
        reveal_strlit("LGPL-2.1+");
        reveal_strlit("LGPL-2.1-or-later");
        reveal_strlit("LGPL-3.0");
        reveal_strlit("LGPL-3.0-only");
        reveal_strlit("LGPL-3.0-or-later");
        reveal_strlit("LGPL-3.0+");
        reveal_strlit("LGPLLR");
        reveal_strlit("Libpng");
        reveal_strlit("libpng-2.0");
        reveal_strlit("libtiff");
        reveal_strlit("LLVM-exception");
        reveal_strlit("LPPL-1.2");
        reveal_strlit("LPPL-1.3a");
        reveal_strlit("LPL-1.02");
        reveal_strlit("MirOS");
        reveal_strlit("MIT");
        reveal_strlit("MPL-1.0");
        reveal_strlit("MPL-1.1");
        reveal_strlit("MPL-2.0");
        reveal_strlit("MS-PL");
        reveal_strlit("NASA-1.3");
        reveal_strlit("NCSA");
        reveal_strlit("NPOSL-3.0");
        reveal_strlit("ODbL-1.0");
        reveal_strlit("OFL-1.0");
        reveal_strlit("OLDAP-2.8");
        reveal_strlit("OpenSSL");
        reveal_strlit("OSL-2.0");
        reveal_strlit("OSL-2.1");
        reveal_strlit("OSL-3.0");
        reveal_strlit("Parity-7.0.0");
        reveal_strlit("PHP-3.01");
        reveal_strlit("PostgreSQL");
        reveal_strlit("Python-2.0");
        reveal_strlit("Qhull");
        reveal_strlit("QPL-1.0");
        reveal_strlit("Ruby");
        reveal_strlit("Sendmail");
        reveal_strlit("SGI-B-2.0");
        reveal_strlit("Sleepycat");
        reveal_strlit("SSPL-1.0");
        reveal_strlit("TCL");
        reveal_strlit("Unicode-DFS-2015");
        reveal_strlit("Unicode-DFS-2016");
        reveal_strlit("Unlicense");
        reveal_strlit("UPL-1.0");
        reveal_strlit("Vim");
        reveal_strlit("VSL-1.0");
        reveal_strlit("Watcom-1.0");
        reveal_strlit("W3C");
        reveal_strlit("WTFPL");
        reveal_strlit("wxWindows");
        reveal_strlit("Zlib");
        reveal_strlit("ZPL-2.0");
        reveal_strlit("ZPL-2.1");
        assert(s.len() == t.len());
        assert(s[0] == t[0]);
        assert(s[1] == t[1]);
        assert(s[2] == t[2]);
        assert(s[3] == t[3]);
        assert(s[4] == t[4]);
        assert(s[5] == t[5]);
        assert(s[6] == t[6]);
        assert(s[7] == t[7]);
        assert(s[8] == t[8]);
        assert(s[9] == t[9]);
        assert(s[10] == t[10]);
        assert(s[11] == t[11]);
        assert(s[12] == t[12]);
        assert(s[13] == t[13]);
        assert(s[14] == t[14]);
        assert(s[15] == t[15]);
        assert(s[16] == t[16]);
        assert(s[17] == t[17]);
        assert(s[18] == t[18]);
        assert(s[19] == t[19]);
        assert(s[20] == t[20]);
        assert(s[21] == t[21]);
        assert(s[22] == t[22]);
        assert(s[23] == t[23]);
        assert(s[24] == t[24]);
        assert(s[25] == t[25]);
        assert(s[26] == t[26]);
        assert(s[27] == t[27]);
        assert(s[28] == t[28]);
        assert(s[29] == t[29]);
        assert(s[30] == t[30]);
        assert(s[31] == t[31]);
    }

    /// Every license has an attribute reference: a non-empty name under
    /// `lib.licenses.`.
    #[verifier::rlimit(100)]
    #[verifier::spinoff_prover]
    pub proof fn lemma_meta_prefix(l: NixLicense)
        ensures
            is_prefix("lib.licenses."@, l.nix_meta()),
            l.nix_meta().len() > "lib.licenses."@.len(),
    {
        reveal_strlit("lib.licenses.");
        reveal_strlit("lib.licenses.abstyles");
        reveal_strlit("lib.licenses.afl20");
        reveal_strlit("lib.licenses.afl21");
        reveal_strlit("lib.licenses.afl3");
        reveal_strlit("lib.licenses.agpl3");
        reveal_strlit("lib.licenses.agpl3Only");
        reveal_strlit("lib.licenses.agpl3Plus");
        reveal_strlit("lib.licenses.amd");
        reveal_strlit("lib.licenses.asl20");
        reveal_strlit("lib.licenses.apsl20");
        reveal_strlit("lib.licenses.artistic1");
        reveal_strlit("lib.licenses.artistic2");
        reveal_strlit("lib.licenses.amazonsl");
        reveal_strlit("lib.licenses.beerware");
        reveal_strlit("lib.licenses.blueOak100");
        reveal_strlit("lib.licenses.bsd0");
        reveal_strlit("lib.licenses.bsd1");
        reveal_strlit("lib.licenses.bsd2");
        reveal_strlit("lib.licenses.bsd2Patent");
        reveal_strlit("lib.licenses.bsd3");
        reveal_strlit("lib.licenses.bsdOriginal");
        reveal_strlit("lib.licenses.bsdOriginalUC");
        reveal_strlit("lib.licenses.bsdProtection");
        reveal_strlit("lib.licenses.boost");
        reveal_strlit("lib.licenses.bsl11");
        reveal_strlit("lib.licenses.clArtistic");
        reveal_strlit("lib.licenses.cc0");
        reveal_strlit("lib.licenses.cc-by-nc-sa-20");
        reveal_strlit("lib.licenses.cc-by-nc-sa-25");
        reveal_strlit("lib.licenses.cc-by-nc-sa-30");
        reveal_strlit("lib.licenses.cc-by-nc-sa-40");
        reveal_strlit("lib.licenses.cc-by-nc-30");
        reveal_strlit("lib.licenses.cc-by-nc-40");
        reveal_strlit("lib.licenses.cc-by-nd-30");
        reveal_strlit("lib.licenses.cc-by-sa-25");
        reveal_strlit("lib.licenses.cc-by-30");
        reveal_strlit("lib.licenses.cc-by-sa-30");
        reveal_strlit("lib.licenses.cc-by-40");
        reveal_strlit("lib.licenses.cc-by-sa-40");
        reveal_strlit("lib.licenses.cddl");
        reveal_strlit("lib.licenses.cecill20");
        reveal_strlit("lib.licenses.cecill-b");
        reveal_strlit("lib.licenses.cecill-c");
        reveal_strlit("lib.licenses.cpal10");
        reveal_strlit("lib.licenses.cpl10");
        reveal_strlit("lib.licenses.curl");
        reveal_strlit("lib.licenses.databricks");
        reveal_strlit("lib.licenses.doc");
        reveal_strlit("lib.licenses.eapl");
        reveal_strlit("lib.licenses.efl10");
        reveal_strlit("lib.licenses.efl20");
        reveal_strlit("lib.licenses.elastic");
        reveal_strlit("lib.licenses.epl10");
        reveal_strlit("lib.licenses.epl20");
        reveal_strlit("lib.licenses.epson");
        reveal_strlit("lib.licenses.eupl11");
        reveal_strlit("lib.licenses.eupl12");
        reveal_strlit("lib.licenses.ffsl");
        reveal_strlit("lib.licenses.free");
        reveal_strlit("lib.licenses.ftl");
        reveal_strlit("lib.licenses.g4sl");
        reveal_strlit("lib.licenses.geogebra");
        reveal_strlit("lib.licenses.fdl11");
        reveal_strlit("lib.licenses.fdl11Only");
        reveal_strlit("lib.licenses.fdl11Plus");
        reveal_strlit("lib.licenses.fdl12");
        reveal_strlit("lib.licenses.fdl12Only");
        reveal_strlit("lib.licenses.fdl12Plus");
        reveal_strlit("lib.licenses.fdl13");
        reveal_strlit("lib.licenses.fdl13Only");
        reveal_strlit("lib.licenses.fdl13Plus");
        reveal_strlit("lib.licenses.gpl1");
        reveal_strlit("lib.licenses.gpl1Only");
        reveal_strlit("lib.licenses.gpl1Plus");
        reveal_strlit("lib.licenses.gpl2");
        reveal_strlit("lib.licenses.gpl2Only");
        reveal_strlit("lib.licenses.gpl2Classpath");
        reveal_strlit("lib.licenses.gpl2Oss");
        reveal_strlit("lib.licenses.gpl2Plus");
        reveal_strlit("lib.licenses.gpl2ClasspathPlus");
        reveal_strlit("lib.licenses.gpl3");
        reveal_strlit("lib.licenses.gpl3Only");
        reveal_strlit("lib.licenses.gpl3Plus");
        reveal_strlit("lib.licenses.gpl3ClasspathPlus");
        reveal_strlit("lib.licenses.hpnd");
        reveal_strlit("lib.licenses.hpndSellVariant");
        reveal_strlit("lib.licenses.iasl");
        reveal_strlit("lib.licenses.ijg");
        reveal_strlit("lib.licenses.imagemagick");
        reveal_strlit("lib.licenses.inria-compcert");
        reveal_strlit("lib.licenses.inria-icesl");
        reveal_strlit("lib.licenses.issl");
        reveal_strlit("lib.licenses.ipa");
        reveal_strlit("lib.licenses.ipl10");
        reveal_strlit("lib.licenses.isc");
        reveal_strlit("lib.licenses.lgpl2");
        reveal_strlit("lib.licenses.lgpl2Only");
        reveal_strlit("lib.licenses.lgpl2Plus");
        reveal_strlit("lib.licenses.lgpl21");
        reveal_strlit("lib.licenses.lgpl21Only");
        reveal_strlit("lib.licenses.lgpl21Plus");
        reveal_strlit("lib.licenses.lgpl3");
        reveal_strlit("lib.licenses.lgpl3Only");
        reveal_strlit("lib.licenses.lgpl3Plus");
        reveal_strlit("lib.licenses.lgpllr");
        reveal_strlit("lib.licenses.libpng");
        reveal_strlit("lib.licenses.libpng2");
        reveal_strlit("lib.licenses.libtiff");
        reveal_strlit("lib.licenses.llvm-exception");
        reveal_strlit("lib.licenses.llgpl21");
        reveal_strlit("lib.licenses.lppl12");
        reveal_strlit("lib.licenses.lppl13c");
        reveal_strlit("lib.licenses.lpl-102");
        reveal_strlit("lib.licenses.miros");
        reveal_strlit("lib.licenses.mit");
        reveal_strlit("lib.licenses.mpl10");
        reveal_strlit("lib.licenses.mpl11");
        reveal_strlit("lib.licenses.mpl20");
        reveal_strlit("lib.licenses.mspl");
        reveal_strlit("lib.licenses.nasa13");
        reveal_strlit("lib.licenses.ncsa");
        reveal_strlit("lib.licenses.nposl3");
        reveal_strlit("lib.licenses.obsidian");
        reveal_strlit("lib.licenses.ocamlpro_nc");
        reveal_strlit("lib.licenses.odbl");
        reveal_strlit("lib.licenses.ofl");
        reveal_strlit("lib.licenses.openldap");
        reveal_strlit("lib.licenses.openssl");
        reveal_strlit("lib.licenses.osl2");
        reveal_strlit("lib.licenses.osl21");
        reveal_strlit("lib.licenses.osl3");
        reveal_strlit("lib.licenses.parity70");
        reveal_strlit("lib.licenses.php301");
        reveal_strlit("lib.licenses.postgresql");
        reveal_strlit("lib.licenses.postman");
        reveal_strlit("lib.licenses.psfl");
        reveal_strlit("lib.licenses.publicDomain");
        reveal_strlit("lib.licenses.purdueBsd");
        reveal_strlit("lib.licenses.prosperity30");
        reveal_strlit("lib.licenses.qhull");
        reveal_strlit("lib.licenses.qpl");
        reveal_strlit("lib.licenses.qwt");
        reveal_strlit("lib.licenses.ruby");
        reveal_strlit("lib.licenses.sendmail");
        reveal_strlit("lib.licenses.sgi-b-20");
        reveal_strlit("lib.licenses.sleepycat");
        reveal_strlit("lib.licenses.smail");
        reveal_strlit("lib.licenses.sspl");
        reveal_strlit("lib.licenses.stk");
        reveal_strlit("lib.licenses.tcltk");
        reveal_strlit("lib.licenses.ufl");
        reveal_strlit("lib.licenses.unfree");
        reveal_strlit("lib.licenses.unfreeRedistributable");
        reveal_strlit("lib.licenses.unfreeRedistributableFirmware");
        reveal_strlit("lib.licenses.unicode-dfs-2015");
        reveal_strlit("lib.licenses.unicode-dfs-2016");
        reveal_strlit("lib.licenses.unlicense");
        reveal_strlit("lib.licenses.upl");
        reveal_strlit("lib.licenses.vim");
        reveal_strlit("lib.licenses.virtualbox-puel");
        reveal_strlit("lib.licenses.vsl10");
        reveal_strlit("lib.licenses.watcom");
        reveal_strlit("lib.licenses.w3c");
        reveal_strlit("lib.licenses.wtfpl");
        reveal_strlit("lib.licenses.wxWindows");
        reveal_strlit("lib.licenses.zlib");
        reveal_strlit("lib.licenses.zpl20");
        reveal_strlit("lib.licenses.zpl21");
        let m = l.nix_meta();
        assert(m.len() > 13);
        assert(m.subrange(0, 13) =~= "lib.licenses."@);
    }

    /// No two licenses share an attribute reference.
    #[verifier::rlimit(100)]
    #[verifier::spinoff_prover]
    pub proof fn lemma_nix_meta_injective(a: NixLicense, b: NixLicense)
        requires
            a.nix_meta() == b.nix_meta(),
        ensures
            a == b,
    {
        reveal_strlit("lib.licenses.abstyles");
        reveal_strlit("lib.licenses.afl20");
        reveal_strlit("lib.licenses.afl21");
        reveal_strlit("lib.licenses.afl3");
        reveal_strlit("lib.licenses.agpl3");
        reveal_strlit("lib.licenses.agpl3Only");
        reveal_strlit("lib.licenses.agpl3Plus");
        reveal_strlit("lib.licenses.amd");
        reveal_strlit("lib.licenses.asl20");
        reveal_strlit("lib.licenses.apsl20");
        reveal_strlit("lib.licenses.artistic1");
        reveal_strlit("lib.licenses.artistic2");
        reveal_strlit("lib.licenses.amazonsl");
        reveal_strlit("lib.licenses.beerware");
        reveal_strlit("lib.licenses.blueOak100");
        reveal_strlit("lib.licenses.bsd0");
        reveal_strlit("lib.licenses.bsd1");
        reveal_strlit("lib.licenses.bsd2");
        reveal_strlit("lib.licenses.bsd2Patent");
        reveal_strlit("lib.licenses.bsd3");
        reveal_strlit("lib.licenses.bsdOriginal");
        reveal_strlit("lib.licenses.bsdOriginalUC");
        reveal_strlit("lib.licenses.bsdProtection");
        reveal_strlit("lib.licenses.boost");
        reveal_strlit("lib.licenses.bsl11");
        reveal_strlit("lib.licenses.clArtistic");
        reveal_strlit("lib.licenses.cc0");
        reveal_strlit("lib.licenses.cc-by-nc-sa-20");
        reveal_strlit("lib.licenses.cc-by-nc-sa-25");
        reveal_strlit("lib.licenses.cc-by-nc-sa-30");
        reveal_strlit("lib.licenses.cc-by-nc-sa-40");
        reveal_strlit("lib.licenses.cc-by-nc-30");
        reveal_strlit("lib.licenses.cc-by-nc-40");
        reveal_strlit("lib.licenses.cc-by-nd-30");
        reveal_strlit("lib.licenses.cc-by-sa-25");
        reveal_strlit("lib.licenses.cc-by-30");
        reveal_strlit("lib.licenses.cc-by-sa-30");
        reveal_strlit("lib.licenses.cc-by-40");
        reveal_strlit("lib.licenses.cc-by-sa-40");
        reveal_strlit("lib.licenses.cddl");
        reveal_strlit("lib.licenses.cecill20");
        reveal_strlit("lib.licenses.cecill-b");
        reveal_strlit("lib.licenses.cecill-c");
        reveal_strlit("lib.licenses.cpal10");
        reveal_strlit("lib.licenses.cpl10");
        reveal_strlit("lib.licenses.curl");
        reveal_strlit("lib.licenses.databricks");
        reveal_strlit("lib.licenses.doc");
        reveal_strlit("lib.licenses.eapl");
        reveal_strlit("lib.licenses.efl10");
        reveal_strlit("lib.licenses.efl20");
        reveal_strlit("lib.licenses.elastic");
        reveal_strlit("lib.licenses.epl10");
        reveal_strlit("lib.licenses.epl20");
        reveal_strlit("lib.licenses.epson");
        reveal_strlit("lib.licenses.eupl11");
        reveal_strlit("lib.licenses.eupl12");
        reveal_strlit("lib.licenses.ffsl");
        reveal_strlit("lib.licenses.free");
        reveal_strlit("lib.licenses.ftl");
        reveal_strlit("lib.licenses.g4sl");
        reveal_strlit("lib.licenses.geogebra");
        reveal_strlit("lib.licenses.fdl11");
        reveal_strlit("lib.licenses.fdl11Only");
        reveal_strlit("lib.licenses.fdl11Plus");
        reveal_strlit("lib.licenses.fdl12");
        reveal_strlit("lib.licenses.fdl12Only");
        reveal_strlit("lib.licenses.fdl12Plus");
        reveal_strlit("lib.licenses.fdl13");
        reveal_strlit("lib.licenses.fdl13Only");
        reveal_strlit("lib.licenses.fdl13Plus");
        reveal_strlit("lib.licenses.gpl1");
        reveal_strlit("lib.licenses.gpl1Only");
        reveal_strlit("lib.licenses.gpl1Plus");
        reveal_strlit("lib.licenses.gpl2");
        reveal_strlit("lib.licenses.gpl2Only");
        reveal_strlit("lib.licenses.gpl2Classpath");
        reveal_strlit("lib.licenses.gpl2Oss");
        reveal_strlit("lib.licenses.gpl2Plus");
        reveal_strlit("lib.licenses.gpl2ClasspathPlus");
        reveal_strlit("lib.licenses.gpl3");
        reveal_strlit("lib.licenses.gpl3Only");
        reveal_strlit("lib.licenses.gpl3Plus");
        reveal_strlit("lib.licenses.gpl3ClasspathPlus");
        reveal_strlit("lib.licenses.hpnd");
        reveal_strlit("lib.licenses.hpndSellVariant");
        reveal_strlit("lib.licenses.iasl");
        reveal_strlit("lib.licenses.ijg");
        reveal_strlit("lib.licenses.imagemagick");
        reveal_strlit("lib.licenses.inria-compcert");
        reveal_strlit("lib.licenses.inria-icesl");
        reveal_strlit("lib.licenses.issl");
        reveal_strlit("lib.licenses.ipa");
        reveal_strlit("lib.licenses.ipl10");
        reveal_strlit("lib.licenses.isc");
        reveal_strlit("lib.licenses.lgpl2");
        reveal_strlit("lib.licenses.lgpl2Only");
        reveal_strlit("lib.licenses.lgpl2Plus");
        reveal_strlit("lib.licenses.lgpl21");
        reveal_strlit("lib.licenses.lgpl21Only");
        reveal_strlit("lib.licenses.lgpl21Plus");
        reveal_strlit("lib.licenses.lgpl3");
        reveal_strlit("lib.licenses.lgpl3Only");
        reveal_strlit("lib.licenses.lgpl3Plus");
        reveal_strlit("lib.licenses.lgpllr");
        reveal_strlit("lib.licenses.libpng");
        reveal_strlit("lib.licenses.libpng2");
        reveal_strlit("lib.licenses.libtiff");
        reveal_strlit("lib.licenses.llvm-exception");
        reveal_strlit("lib.licenses.llgpl21");
        reveal_strlit("lib.licenses.lppl12");
        reveal_strlit("lib.licenses.lppl13c");
        reveal_strlit("lib.licenses.lpl-102");
        reveal_strlit("lib.licenses.miros");
        reveal_strlit("lib.licenses.mit");
        reveal_strlit("lib.licenses.mpl10");
        reveal_strlit("lib.licenses.mpl11");
        reveal_strlit("lib.licenses.mpl20");
        reveal_strlit("lib.licenses.mspl");
        reveal_strlit("lib.licenses.nasa13");
        reveal_strlit("lib.licenses.ncsa");
        reveal_strlit("lib.licenses.nposl3");
        reveal_strlit("lib.licenses.obsidian");
        reveal_strlit("lib.licenses.ocamlpro_nc");
        reveal_strlit("lib.licenses.odbl");
        reveal_strlit("lib.licenses.ofl");
        reveal_strlit("lib.licenses.openldap");
        reveal_strlit("lib.licenses.openssl");
        reveal_strlit("lib.licenses.osl2");
        reveal_strlit("lib.licenses.osl21");
        reveal_strlit("lib.licenses.osl3");
        reveal_strlit("lib.licenses.parity70");
        reveal_strlit("lib.licenses.php301");
        reveal_strlit("lib.licenses.postgresql");
        reveal_strlit("lib.licenses.postman");
        reveal_strlit("lib.licenses.psfl");
        reveal_strlit("lib.licenses.publicDomain");
        reveal_strlit("lib.licenses.purdueBsd");
        reveal_strlit("lib.licenses.prosperity30");
        reveal_strlit("lib.licenses.qhull");
        reveal_strlit("lib.licenses.qpl");
        reveal_strlit("lib.licenses.qwt");
        reveal_strlit("lib.licenses.ruby");
        reveal_strlit("lib.licenses.sendmail");
        reveal_strlit("lib.licenses.sgi-b-20");
        reveal_strlit("lib.licenses.sleepycat");
        reveal_strlit("lib.licenses.smail");
        reveal_strlit("lib.licenses.sspl");
        reveal_strlit("lib.licenses.stk");
        reveal_strlit("lib.licenses.tcltk");
        reveal_strlit("lib.licenses.ufl");
        reveal_strlit("lib.licenses.unfree");
        reveal_strlit("lib.licenses.unfreeRedistributable");
        reveal_strlit("lib.licenses.unfreeRedistributableFirmware");
        reveal_strlit("lib.licenses.unicode-dfs-2015");
        reveal_strlit("lib.licenses.unicode-dfs-2016");
        reveal_strlit("lib.licenses.unlicense");
        reveal_strlit("lib.licenses.upl");
        reveal_strlit("lib.licenses.vim");
        reveal_strlit("lib.licenses.virtualbox-puel");
        reveal_strlit("lib.licenses.vsl10");
        reveal_strlit("lib.licenses.watcom");
        reveal_strlit("lib.licenses.w3c");
        reveal_strlit("lib.licenses.wtfpl");
        reveal_strlit("lib.licenses.wxWindows");
        reveal_strlit("lib.licenses.zlib");
        reveal_strlit("lib.licenses.zpl20");
        reveal_strlit("lib.licenses.zpl21");
        let x = a.nix_meta();
        let y = b.nix_meta();
        assert(x.len() == y.len());
        assert(x[13] == y[13]);
        assert(x[14] == y[14]);
        assert(x[15] == y[15]);
        assert(x[16] == y[16]);
        assert(x[17] == y[17]);
        assert(x[18] == y[18]);
        assert(x[19] == y[19]);
        assert(x[20] == y[20]);
        assert(x[21] == y[21]);
        assert(x[22] == y[22]);
        assert(x[23] == y[23]);
        assert(x[24] == y[24]);
        assert(x[25] == y[25]);
        assert(x[26] == y[26]);
        assert(x[27] == y[27]);
        assert(x[28] == y[28]);
        assert(x[29] == y[29]);
        assert(x[30] == y[30]);
        assert(x[31] == y[31]);
        assert(x[32] == y[32]);
        assert(x[33] == y[33]);
        assert(x[34] == y[34]);
        assert(x[35] == y[35]);
        assert(x[36] == y[36]);
        assert(x[37] == y[37]);
        assert(x[38] == y[38]);
        assert(x[39] == y[39]);
        assert(x[40] == y[40]);
        assert(x[41] == y[41]);
    }

    /// A text resolves to a license exactly when it is the canonical short
    /// identifier of one, and then to that license; the license it resolves to
    /// has an attribute reference, a non-empty name under `lib.licenses.`.
    pub proof fn lemma_resolution(s: Seq<char>)
        ensures
            Self::spec_from_str(s) is Some <==> exists|l: NixLicense| l.has_id(s),
            forall|l: NixLicense| l.has_id(s) ==> Self::spec_from_str(s) == Some(l),
            Self::spec_from_str(s) matches Some(l) ==> l.has_id(s) && is_prefix(
                "lib.licenses."@,
                l.nix_meta(),
            ) && l.nix_meta().len() > "lib.licenses."@.len(),
    {
        assert forall|l: NixLicense| l.has_id(s) implies Self::spec_from_str(s) == Some(
            l,
        ) by {
            Self::lemma_id_names_one(l, Self::spec_from_str(s).unwrap(), s);
        }
        if let Some(l) = Self::spec_from_str(s) {
            Self::lemma_meta_prefix(l);
        }
    }
}

} // verus!
