//! Client identifiers for endpoints that name none.

use vstd::prelude::*;
use vstd::string::StringExecFns;

verus! {

/// Whether `c` is a digit of lower-case hexadecimal.
pub open spec fn is_lower_hex(c: char) -> bool {
    ('0' <= c && c <= '9') || ('a' <= c && c <= 'f')
}

/// Whether position `i` of a hyphenated UUID holds a hyphen.
pub open spec fn is_hyphen_position(i: int) -> bool {
    i == 8 || i == 13 || i == 18 || i == 23
}

/// Whether `text` is a version 4 UUID in its hyphenated lower-case form,
/// `xxxxxxxx-xxxx-4xxx-xxxx-xxxxxxxxxxxx`.
pub open spec fn is_random_uuid_text(text: Seq<char>) -> bool {
    &&& text.len() == 36
    &&& forall|i: int|
        0 <= i < 36 ==> if is_hyphen_position(i) {
            #[trigger] text[i] == '-'
        } else {
            is_lower_hex(text[i])
        }
    &&& text[14] == '4'
}

/// What every generated client identifier starts with.
pub open spec fn client_id_prefix() -> Seq<char> {
    "mr-bridge-"@
}

/// A fresh random UUID as text.
///
/// Calls `uuid::Uuid::new_v4` and writes the result out with its `Display`,
/// which is the hyphenated lower-case form. Trusted: that the text has that
/// form and the version digit 4, whatever the random bits were. Which UUID
/// comes out is not stated, and two calls may differ. The call fails only
/// where the operating system cannot supply random bytes.
#[verifier::external_body]
fn random_uuid_text() -> (text: String)
    ensures
        is_random_uuid_text(text@),
{
    uuid::Uuid::new_v4().to_string()
}

/// The client identifier made of the common prefix and `suffix`.
pub fn client_id_with(suffix: &str) -> (id: String)
    ensures
        id@ == client_id_prefix() + suffix@,
{
    let mut id = String::from_str("mr-bridge-");
    id.append(suffix);
    id
}

/// A client identifier for an endpoint that names none: the common prefix
/// and a fresh random UUID.
pub fn default_client_id() -> (id: String)
    ensures
        exists|uuid: Seq<char>|
            #![trigger is_random_uuid_text(uuid)]
            is_random_uuid_text(uuid) && id@ == client_id_prefix() + uuid,
{
    let uuid = random_uuid_text();
    client_id_with(uuid.as_str())
}

} // verus!
