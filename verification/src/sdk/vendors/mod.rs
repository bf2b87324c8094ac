//! Vendor registry and the per-vendor decision logic.
use vstd::prelude::*;
use vstd::string::StringExecFns;
use crate::sdk::errors::FingerprintError;
use crate::text::str_eq;

pub mod secugen;
pub mod template;
pub mod neurotec;
pub mod wbf;

verus! {

/// The operating-system family the SDK runs on.
#[derive(Debug, Clone, Copy, PartialEq, Eq)]
pub enum Platform {
    Windows,
    MacOs,
    Linux,
}

/// The scanner implementations a vendor name can select.
#[derive(Debug, Clone, Copy, PartialEq, Eq)]
pub enum VendorKind {
    SecuGen,
    Wbf,
    Neurotec,
}

/// The scanner selected for a vendor name (absent means "auto").
pub open spec fn spec_vendor_choice(name: Seq<char>, platform: Platform) -> Option<VendorKind> {
    if name == "secugen"@ {
        Some(VendorKind::SecuGen)
    } else if platform == Platform::Windows && (name == "wbf"@ || name == "windows"@) {
        Some(VendorKind::Wbf)
    } else if platform == Platform::Windows && (name == "neurotec"@ || name == "neurotechnology"@) {
        Some(VendorKind::Neurotec)
    } else if name == "auto"@ {
        if platform == Platform::Windows {
            Some(VendorKind::Wbf)
        } else {
            Some(VendorKind::SecuGen)
        }
    } else {
        None
    }
}

/// Selects the scanner implementation for a vendor name. On Windows "auto"
/// picks the Windows Biometric Framework; elsewhere SecuGen is the only
/// vendor. Unknown names, and Windows-only vendors off Windows, are refused.
pub fn get_scanner(vendor: Option<&str>, platform: Platform) -> (r: Result<VendorKind, FingerprintError>)
    ensures
        ({
            let name = match vendor {
                Some(v) => v@,
                None => "auto"@,
            };
            match spec_vendor_choice(name, platform) {
                Some(k) => r == Ok::<VendorKind, FingerprintError>(k),
                None => r matches Err(FingerprintError::UnsupportedVendor(n)) && n@ == name,
            }
        }),
        vendor is Some && vendor->0@ == "secugen"@ ==> r == Ok::<VendorKind, FingerprintError>(
            VendorKind::SecuGen,
        ),
        platform == Platform::Windows && vendor is Some && (vendor->0@ == "wbf"@ || vendor->0@
            == "windows"@) ==> r == Ok::<VendorKind, FingerprintError>(VendorKind::Wbf),
        platform == Platform::Windows && vendor is Some && (vendor->0@ == "neurotec"@
            || vendor->0@ == "neurotechnology"@) ==> r == Ok::<VendorKind, FingerprintError>(
            VendorKind::Neurotec,
        ),
        platform == Platform::Windows && (vendor is None || vendor->0@ == "auto"@) ==> r == Ok::<
            VendorKind,
            FingerprintError,
        >(VendorKind::Wbf),
        platform != Platform::Windows && (vendor is None || vendor->0@ == "auto"@) ==> r == Ok::<
            VendorKind,
            FingerprintError,
        >(VendorKind::SecuGen),
        platform != Platform::Windows && r is Ok ==> r == Ok::<VendorKind, FingerprintError>(
            VendorKind::SecuGen,
        ),
{
    proof {
        law_documented_vendor_names(platform);
    }
    let name: &str = match vendor {
        Some(v) => v,
        None => "auto",
    };
    let windows = match platform {
        Platform::Windows => true,
        _ => false,
    };
    if str_eq(name, "secugen") {
        Ok(VendorKind::SecuGen)
    } else if windows && (str_eq(name, "wbf") || str_eq(name, "windows")) {
        Ok(VendorKind::Wbf)
    } else if windows && (str_eq(name, "neurotec") || str_eq(name, "neurotechnology")) {
        Ok(VendorKind::Neurotec)
    } else if str_eq(name, "auto") {
        if windows {
            Ok(VendorKind::Wbf)
        } else {
            Ok(VendorKind::SecuGen)
        }
    } else {
        Err(FingerprintError::UnsupportedVendor(String::from_str(name)))
    }
}

/// The vendor names the SDK documents select their scanners: "secugen"
/// SecuGen everywhere; on Windows "wbf" and "windows" the Windows Biometric
/// Framework, "neurotec" and "neurotechnology" Neurotechnology, and "auto"
/// the Windows Biometric Framework; elsewhere "auto" SecuGen, and the
/// Windows-only vendors are refused.
pub proof fn law_documented_vendor_names(platform: Platform)
    ensures
        spec_vendor_choice("secugen"@, platform) == Some(VendorKind::SecuGen),
        platform == Platform::Windows ==> spec_vendor_choice("wbf"@, platform) == Some(VendorKind::Wbf)
            && spec_vendor_choice("windows"@, platform) == Some(VendorKind::Wbf)
            && spec_vendor_choice("neurotec"@, platform) == Some(VendorKind::Neurotec)
            && spec_vendor_choice("neurotechnology"@, platform) == Some(VendorKind::Neurotec)
            && spec_vendor_choice("auto"@, platform) == Some(VendorKind::Wbf),
        platform != Platform::Windows ==> spec_vendor_choice("auto"@, platform) == Some(
            VendorKind::SecuGen,
        ) && spec_vendor_choice("wbf"@, platform) is None && spec_vendor_choice("windows"@, platform)
            is None && spec_vendor_choice("neurotec"@, platform) is None && spec_vendor_choice(
            "neurotechnology"@,
            platform,
        ) is None,
        forall|name: Seq<char>|
            platform != Platform::Windows && #[trigger] spec_vendor_choice(name, platform) is Some
                ==> spec_vendor_choice(name, platform) == Some(VendorKind::SecuGen),
{
    reveal_strlit("secugen");
    reveal_strlit("wbf");
    reveal_strlit("windows");
    reveal_strlit("neurotec");
    reveal_strlit("neurotechnology");
    reveal_strlit("auto");
    assert("wbf"@ != "secugen"@ && "windows"@ != "secugen"@ && "neurotec"@ != "secugen"@
        && "neurotechnology"@ != "secugen"@ && "auto"@ != "secugen"@) by {
        assert("wbf"@.len() != "secugen"@.len());
        assert("windows"@[0] != "secugen"@[0]);
        assert("neurotec"@.len() != "secugen"@.len());
        assert("neurotechnology"@.len() != "secugen"@.len());
        assert("auto"@.len() != "secugen"@.len());
    }
    assert("neurotec"@ != "wbf"@ && "neurotec"@ != "windows"@ && "neurotechnology"@ != "wbf"@
        && "neurotechnology"@ != "windows"@ && "auto"@ != "wbf"@ && "auto"@ != "windows"@
        && "auto"@ != "neurotec"@ && "auto"@ != "neurotechnology"@) by {
        assert("neurotec"@.len() != "wbf"@.len());
        assert("neurotec"@.len() != "windows"@.len());
        assert("neurotechnology"@.len() != "wbf"@.len());
        assert("neurotechnology"@.len() != "windows"@.len());
        assert("auto"@.len() != "wbf"@.len());
        assert("auto"@.len() != "windows"@.len());
        assert("auto"@.len() != "neurotec"@.len());
        assert("auto"@.len() != "neurotechnology"@.len());
    }
}

} // verus!
