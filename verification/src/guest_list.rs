use vstd::prelude::*;
use crate::invite::{valid_invite_id, Invite, InviteId, InviteView, Language};

verus! {

/// Whether `c` is a lower-case hexadecimal digit.
pub open spec fn is_lower_hex(c: char) -> bool {
    ('0' <= c <= '9') || ('a' <= c <= 'f')
}

/// What every text that names a random (version 4) UUID in its simple form
/// looks like: 32 lower-case hexadecimal digits, the version digit `4` at
/// index 12 and a variant digit `8`, `9`, `a` or `b` at index 16.
pub open spec fn simple_v4_uuid(s: Seq<char>) -> bool {
    &&& s.len() == 32
    &&& forall|i: int| 0 <= i < 32 ==> is_lower_hex(#[trigger] s[i])
    &&& s[12] == '4'
    &&& (s[16] == '8' || s[16] == '9' || s[16] == 'a' || s[16] == 'b')
}

/// `uuid::Uuid::new_v4().simple().to_string()`: a random UUID written as 32
/// lower-case hexadecimal digits without hyphens. Which digits come out is
/// left open: the contract says only what holds of every outcome. The call
/// panics when the operating system gives no random bytes, which no
/// argument can rule out.
#[verifier::external_body]
fn random_uuid_text() -> (s: String)
    ensures
        simple_v4_uuid(s@),
{
    uuid::Uuid::new_v4().simple().to_string()
}

/// A text of 32 ASCII characters is a valid invite identifier.
pub proof fn lemma_simple_uuid_is_valid_id(s: Seq<char>)
    requires
        simple_v4_uuid(s),
    ensures
        valid_invite_id(s),
{
    assert(vstd::utf8::is_ascii_chars(s)) by {
        assert forall|i: int| 0 <= i < s.len() implies '\0' <= #[trigger] s[i] <= '\u{7f}' by {
            assert(is_lower_hex(s[i]));
        }
    }
    vstd::utf8::is_ascii_chars_encode_utf8(s);
}

impl InviteId {
    /// A new random identifier; it is always accepted.
    pub fn fresh() -> (id: InviteId)
        ensures
            simple_v4_uuid(id@),
            valid_invite_id(id@),
    {
        let text = random_uuid_text();
        proof {
            lemma_simple_uuid_is_valid_id(text@);
        }
        match InviteId::new(text) {
            Ok(id) => id,
            Err(_) => vstd::pervasive::unreached(),
        }
    }
}

/// A new invitation from a line of the guest list: an unanswered invite
/// for `guests` people under a fresh identifier.
pub fn new_invitation(name: String, guests: u16, language: Language) -> (res: (Invite, InviteId))
    ensures
        res.0@ == InviteView::pending(name@, guests, language),
        res.0.name@ == name@,
        res.0.guests == guests,
        res.0.language == language,
        !res.0.responded,
        res.0.attending is None,
        res.0.notes is None,
        res.0.vegetarians == 0,
        simple_v4_uuid(res.1@),
        valid_invite_id(res.1@),
{
    let id = InviteId::fresh();
    (Invite::new_pending(name, guests, language), id)
}

/// The line of the list of sent invitations for `name`: the name and the
/// link to the invite's page, both quoted, then a line break.
pub open spec fn link_line(name: Seq<char>, id: Seq<char>) -> Seq<char> {
    "\""@ + name + "\",\"https://vanulio.fun/rsvp?_id="@ + id + "\"\n"@
}

/// The line of the list of sent invitations for this invite.
pub fn invitation_line(invite: &Invite, id: &InviteId) -> (line: String)
    ensures
        line@ == link_line(invite.name@, id@),
{
    String::from_str("\"").concat(invite.name.as_str()).concat(
        "\",\"https://vanulio.fun/rsvp?_id=",
    ).concat(id.as_str()).concat("\"\n")
}

} // verus!
