//! What the command-line tool computes: template listings, confirmation
//! answers, and counts shown to the user.

use crate::templates::manifest::TemplateManifest;
use crate::templates::registry::TemplateInfo;
use crate::text::{decimal, owned, push_decimal, push_str, str_eq, trim, trim_str};
use vstd::prelude::*;

verus! {

/// The mark shown for a template's verification status.
pub open spec fn verified_mark_text(verified: bool) -> Seq<char> {
    if verified {
        "✓"@
    } else {
        "✗"@
    }
}

/// The mark shown for a template's verification status: `✓` or `✗`.
pub fn verified_mark(verified: bool) -> (r: &'static str)
    ensures
        r@ == verified_mark_text(verified),
{
    if verified {
        "✓"
    } else {
        "✗"
    }
}

/// The line listing a template: its mark, name and version.
pub fn template_summary_line(info: &TemplateInfo) -> (r: String)
    ensures
        r@ == "  "@ + verified_mark_text(info.verified) + " "@ + info.name@ + " v"@ + info.version@,
{
    let mut r = owned("  ");
    push_str(&mut r, verified_mark(info.verified));
    push_str(&mut r, " ");
    push_str(&mut r, info.name.as_str());
    push_str(&mut r, " v");
    push_str(&mut r, info.version.as_str());
    r
}

/// The lines describing a template in the verbose listing, ending with a blank line.
pub fn template_detail_lines(info: &TemplateInfo) -> (r: Vec<String>)
    ensures
        r@.len() == 6,
        r@[0]@ == "  "@ + info.name@ + " v"@ + info.version@,
        r@[1]@ == "    Path: "@ + info.path@,
        r@[2]@ == "    Size: "@ + decimal(info.size_bytes as nat) + " bytes"@,
        r@[3]@ == "    Checksum: "@ + info.checksum@,
        r@[4]@ == "    Verified: "@ + verified_mark_text(info.verified),
        r@[5]@ == Seq::<char>::empty(),
{
    let mut r: Vec<String> = Vec::new();
    let mut l0 = owned("  ");
    push_str(&mut l0, info.name.as_str());
    push_str(&mut l0, " v");
    push_str(&mut l0, info.version.as_str());
    r.push(l0);
    let mut l1 = owned("    Path: ");
    push_str(&mut l1, info.path.as_str());
    r.push(l1);
    let mut l2 = owned("    Size: ");
    push_decimal(&mut l2, info.size_bytes);
    push_str(&mut l2, " bytes");
    r.push(l2);
    let mut l3 = owned("    Checksum: ");
    push_str(&mut l3, info.checksum.as_str());
    r.push(l3);
    let mut l4 = owned("    Verified: ");
    push_str(&mut l4, verified_mark(info.verified));
    r.push(l4);
    r.push(String::new());
    r
}

/// The number of verification checks a manifest declares: required
/// packages, services and files, and verification commands.
pub open spec fn check_count(m: TemplateManifest) -> nat {
    m.verification.required_packages@.len() + m.verification.required_services@.len()
        + m.verification.required_files@.len() + m.verification.verification_commands@.len()
}

/// The number of verification checks a manifest declares.
pub fn verification_check_count(m: &TemplateManifest) -> (r: usize)
    requires
        check_count(*m) <= usize::MAX,
    ensures
        r == check_count(*m),
{
    let v = &m.verification;
    v.required_packages.len() + v.required_services.len() + v.required_files.len()
        + v.verification_commands.len()
}

/// Whether the answer to a deletion prompt accepts it: `y` or `Y`, up to
/// surrounding whitespace.
pub fn delete_confirmed(input: &str) -> (r: bool)
    ensures
        r == (trim(input@) == "y"@ || trim(input@) == "Y"@),
{
    let t = trim_str(input);
    str_eq(t.as_str(), "y") || str_eq(t.as_str(), "Y")
}

/// The SSH public key held in a key file: its contents without surrounding whitespace.
pub fn ssh_key_from_file(contents: &str) -> (r: String)
    ensures
        r@ == trim(contents@),
{
    trim_str(contents)
}

} // verus!
