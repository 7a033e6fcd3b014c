//! The text of the two kinds of section that the configuration file holds.

use crate::text::{lemma_unbroken_concat, plain_lines, plain_value, unbroken};
use vstd::prelude::*;

verus! {

/// The text of a `[DEFAULT]` section: the header, one `key=value` line for
/// each field, and an empty line. The values stand as they are given.
pub open spec fn default_section(
    user: Seq<char>,
    fingerprint: Seq<char>,
    key_file: Seq<char>,
    tenancy: Seq<char>,
    region: Seq<char>,
) -> Seq<char> {
    "[DEFAULT]\nuser="@ + user + "\nfingerprint="@ + fingerprint + "\nkey_file="@ + key_file
        + "\ntenancy="@ + tenancy + "\nregion="@ + region + "\n\n"@
}

/// The text of an `[ADMIN_USER]` section: the header, one `key=value` line
/// for each field, and an empty line. The values stand as they are given.
pub open spec fn admin_section(
    user: Seq<char>,
    fingerprint: Seq<char>,
    key_file: Seq<char>,
    pass_phrase: Seq<char>,
) -> Seq<char> {
    "[ADMIN_USER]\nuser="@ + user + "\nfingerprint="@ + fingerprint + "\nkey_file="@ + key_file
        + "\npass_phrase="@ + pass_phrase + "\n\n"@
}

/// Renders a `[DEFAULT]` section. `region` is the identifier of the region.
pub fn default_entry(
    user: &str,
    fingerprint: &str,
    key_file: &str,
    tenancy: &str,
    region: &str,
) -> (r: String)
    ensures
        r@ == default_section(user@, fingerprint@, key_file@, tenancy@, region@),
{
    "[DEFAULT]\nuser=".to_string().concat(user).concat("\nfingerprint=").concat(
        fingerprint,
    ).concat("\nkey_file=").concat(key_file).concat("\ntenancy=").concat(tenancy).concat(
        "\nregion=",
    ).concat(region).concat("\n\n")
}

/// Renders an `[ADMIN_USER]` section.
pub fn admin_entry(user: &str, fingerprint: &str, key_file: &str, pass_phrase: &str) -> (r: String)
    ensures
        r@ == admin_section(user@, fingerprint@, key_file@, pass_phrase@),
{
    "[ADMIN_USER]\nuser=".to_string().concat(user).concat("\nfingerprint=").concat(
        fingerprint,
    ).concat("\nkey_file=").concat(key_file).concat("\npass_phrase=").concat(pass_phrase).concat(
        "\n\n",
    )
}

/// A value between the text before it, which ends with `=`, and the line
/// feed of the text behind it.
proof fn lemma_value(before: Seq<char>, value: Seq<char>, behind: Seq<char>)
    requires
        before.len() > 0,
        before.last() == '=',
        behind.len() > 0,
        behind[0] == '\n',
        behind.last() != '\r',
        unbroken(behind),
    ensures
        unbroken(before + value + behind) <==> unbroken(before) && plain_value(value),
        (before + value + behind).last() == behind.last(),
{
    lemma_unbroken_concat(before, value);
    lemma_unbroken_concat(before + value, behind);
    if value.len() > 0 {
        assert((before + value).last() == value.last());
    } else {
        assert(before + value =~= before);
    }
}

/// A `[DEFAULT]` section has plain lines, and so is read back as it was
/// written, where each of its values is plain, and only there.
pub proof fn lemma_default_section_plain(
    user: Seq<char>,
    fingerprint: Seq<char>,
    key_file: Seq<char>,
    tenancy: Seq<char>,
    region: Seq<char>,
)
    ensures
        plain_lines(default_section(user, fingerprint, key_file, tenancy, region)) <==> {
            &&& plain_value(user)
            &&& plain_value(fingerprint)
            &&& plain_value(key_file)
            &&& plain_value(tenancy)
            &&& plain_value(region)
        },
{
    reveal_strlit("[DEFAULT]\nuser=");
    reveal_strlit("\nfingerprint=");
    reveal_strlit("\nkey_file=");
    reveal_strlit("\ntenancy=");
    reveal_strlit("\nregion=");
    reveal_strlit("\n\n");
    let a = "[DEFAULT]\nuser="@ + user + "\nfingerprint="@;
    let b = a + fingerprint + "\nkey_file="@;
    let c = b + key_file + "\ntenancy="@;
    let d = c + tenancy + "\nregion="@;
    lemma_value("[DEFAULT]\nuser="@, user, "\nfingerprint="@);
    lemma_value(a, fingerprint, "\nkey_file="@);
    lemma_value(b, key_file, "\ntenancy="@);
    lemma_value(c, tenancy, "\nregion="@);
    lemma_value(d, region, "\n\n"@);
}

/// An `[ADMIN_USER]` section has plain lines, and so is read back as it was
/// written, where each of its values is plain, and only there.
pub proof fn lemma_admin_section_plain(
    user: Seq<char>,
    fingerprint: Seq<char>,
    key_file: Seq<char>,
    pass_phrase: Seq<char>,
)
    ensures
        plain_lines(admin_section(user, fingerprint, key_file, pass_phrase)) <==> {
            &&& plain_value(user)
            &&& plain_value(fingerprint)
            &&& plain_value(key_file)
            &&& plain_value(pass_phrase)
        },
{
    reveal_strlit("[ADMIN_USER]\nuser=");
    reveal_strlit("\nfingerprint=");
    reveal_strlit("\nkey_file=");
    reveal_strlit("\npass_phrase=");
    reveal_strlit("\n\n");
    let a = "[ADMIN_USER]\nuser="@ + user + "\nfingerprint="@;
    let b = a + fingerprint + "\nkey_file="@;
    let c = b + key_file + "\npass_phrase="@;
    lemma_value("[ADMIN_USER]\nuser="@, user, "\nfingerprint="@);
    lemma_value(a, fingerprint, "\nkey_file="@);
    lemma_value(b, key_file, "\npass_phrase="@);
    lemma_value(c, pass_phrase, "\n\n"@);
}

} // verus!
