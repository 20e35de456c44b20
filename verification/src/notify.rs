use vstd::prelude::*;
use crate::invite::{Invite, InviteView};
use crate::text::{decimal, escape_html, html_escape, numeral_value, push_decimal};

verus! {

/// The subject and HTML body of the mail that tells the couple about an answer.
pub struct Notification {
    pub subject: String,
    pub html_body: String,
}

/// A mail address with the name shown for it.
pub struct Mailbox {
    pub name: String,
    pub address: String,
}

/// Who sends the notification and who receives it.
pub struct Envelope {
    pub from: Mailbox,
    pub to: Vec<Mailbox>,
}

/// The notes of an answer as text: empty when there are none.
pub open spec fn notes_text(notes: Option<Seq<char>>) -> Seq<char> {
    match notes {
        Some(n) => n,
        None => Seq::empty(),
    }
}

/// The subject of the mail for an invite whose guests will come.
pub open spec fn yes_subject(name: Seq<char>) -> Seq<char> {
    "YES RSVP "@ + name
}

/// The subject of the mail for an invite that was declined.
pub open spec fn no_subject(name: Seq<char>) -> Seq<char> {
    "NO RSVP "@ + name
}

/// The body of the mail for an invite whose guests will come; the notes are HTML-escaped.
pub open spec fn yes_body(name: Seq<char>, guests: u16, vegetarians: u16, notes: Seq<char>) -> Seq<
    char,
> {
    name + " has "@ + decimal(guests as nat) + " guests attending the wedding.<br />\n                Vegetarians: "@
        + decimal(vegetarians as nat) + "<br />\n                Notes: "@ + html_escape(notes)
}

/// The body of the mail for an invite that was declined.
pub open spec fn no_body(name: Seq<char>) -> Seq<char> {
    name + " has declined the invite :("@
}

/// The notification for an invite: none while it is not answered;
/// otherwise the subject and body for a yes or for a no.
pub open spec fn notification_of(invite: InviteView) -> Option<(Seq<char>, Seq<char>)> {
    match invite.attending {
        None => None,
        Some(true) => Some(
            (
                yes_subject(invite.name),
                yes_body(invite.name, invite.guests, invite.vegetarians, notes_text(invite.notes)),
            ),
        ),
        Some(false) => Some((no_subject(invite.name), no_body(invite.name))),
    }
}

/// Whether the notes of an invite are short enough to be escaped.
pub open spec fn notes_escapable(invite: InviteView) -> bool {
    2 * vstd::utf8::encode_utf8(notes_text(invite.notes)).len() <= isize::MAX
}

impl Invite {
    /// The mail that tells the couple how this invite was answered, or the
    /// error "Invite not responded" when nobody has said yet whether they come.
    pub fn notification(&self) -> (res: Result<Notification, String>)
        requires
            notes_escapable(self@),
        ensures
            res is Err <==> notification_of(self@) is None,
            res matches Err(msg) ==> msg@ == "Invite not responded"@,
            res matches Ok(n) ==> notification_of(self@) == Some((n.subject@, n.html_body@)),
    {
        let attending = match self.attending {
            Some(a) => a,
            None => {
                return Err(String::from_str("Invite not responded"));
            },
        };
        if attending {
            let subject = String::from_str("YES RSVP ").concat(self.name.as_str());
            let notes = match &self.notes {
                Some(n) => escape_html(n.as_str()),
                None => {
                    let empty = String::new();
                    proof {
                        assert(vstd::utf8::encode_utf8(empty@).len() == 0);
                    }
                    escape_html(empty.as_str())
                },
            };
            let mut body = self.name.clone().concat(" has ");
            push_decimal(&mut body, self.guests);
            body.append(" guests attending the wedding.<br />\n                Vegetarians: ");
            push_decimal(&mut body, self.vegetarians);
            body.append("<br />\n                Notes: ");
            body.append(notes.as_str());
            Ok(Notification { subject, html_body: body })
        } else {
            let subject = String::from_str("NO RSVP ").concat(self.name.as_str());
            let body = self.name.clone().concat(" has declined the invite :(");
            Ok(Notification { subject, html_body: body })
        }
    }
}

/// The name shown for the sender, who also receives a copy.
pub open spec fn sender_name() -> Seq<char> {
    "Vanulio"@
}

/// The name shown for the other receiver.
pub open spec fn partner_name() -> Seq<char> {
    "Giulio"@
}

/// The notification goes from the sender's address to the partner's address
/// and back to the sender.
pub fn envelope(sender_address: String, partner_address: String) -> (env: Envelope)
    ensures
        env.from.name@ == sender_name(),
        env.from.address@ == sender_address@,
        env.to@.len() == 2,
        env.to@[0].name@ == partner_name(),
        env.to@[0].address@ == partner_address@,
        env.to@[1].name@ == sender_name(),
        env.to@[1].address@ == sender_address@,
{
    let copy = sender_address.clone();
    let mut to: Vec<Mailbox> = Vec::new();
    to.push(Mailbox { name: String::from_str("Giulio"), address: partner_address });
    to.push(Mailbox { name: String::from_str("Vanulio"), address: copy });
    Envelope { from: Mailbox { name: String::from_str("Vanulio"), address: sender_address }, to }
}


/// The mail of an attendance names the guests and tells both counts so
/// that they read back: it starts with the name, the guest count follows
/// " has ", and the vegetarian count follows the guest sentence.
pub proof fn lemma_mail_counts_read_back(
    name: Seq<char>,
    guests: u16,
    vegetarians: u16,
    notes: Seq<char>,
)
    ensures
        ({
            let body = yes_body(name, guests, vegetarians, notes);
            let g_start: int = name.len() as int + " has "@.len();
            let g_end: int = g_start + decimal(guests as nat).len();
            let v_start: int = g_end + " guests attending the wedding.<br />\n                Vegetarians: "@.len();
            let v_end: int = v_start + decimal(vegetarians as nat).len();
            &&& body.subrange(0, name.len() as int) == name
            &&& v_end <= body.len()
            &&& numeral_value(body.subrange(g_start, g_end)) == guests
            &&& numeral_value(body.subrange(v_start, v_end)) == vegetarians
        }),
{
    let a = " has "@;
    let dg = decimal(guests as nat);
    let b = " guests attending the wedding.<br />\n                Vegetarians: "@;
    let dv = decimal(vegetarians as nat);
    let c = "<br />\n                Notes: "@;
    let e = html_escape(notes);
    let body = yes_body(name, guests, vegetarians, notes);
    assert(body == name + a + dg + b + dv + c + e);
    crate::text::lemma_decimal_reads_back(guests as nat);
    crate::text::lemma_decimal_reads_back(vegetarians as nat);
    let g_start: int = name.len() as int + a.len();
    let g_end: int = g_start + dg.len();
    let v_start: int = g_end + b.len();
    let v_end: int = v_start + dv.len();
    assert(body.subrange(0, name.len() as int) =~= name);
    assert(body.subrange(g_start, g_end) =~= dg);
    assert(body.subrange(v_start, v_end) =~= dv);
}

/// A notification exists exactly for an answered invite, and its subject
/// starts with "YES RSVP " for an attendance and "NO RSVP " for a decline.
pub proof fn lemma_notification_matches_answer(invite: InviteView)
    ensures
        notification_of(invite) is Some <==> invite.attending is Some,
        invite.attending == Some(true) ==> notification_of(invite).unwrap().0 == "YES RSVP "@
            + invite.name,
        invite.attending == Some(false) ==> notification_of(invite).unwrap().0 == "NO RSVP "@
            + invite.name,
{
}

/// The guest's notes reach the mail only HTML-escaped: the body of an
/// attendance is a text fixed by the name and the numbers, followed by
/// the escaped notes, which hold none of `<`, `>`, `"`, `'` and `/` and
/// read back as exactly the notes the guest wrote (nothing without notes).
pub proof fn lemma_notes_are_escaped_in_mail(invite: InviteView)
    requires
        invite.attending == Some(true),
    ensures
        ({
            let body = notification_of(invite).unwrap().1;
            let escaped = html_escape(notes_text(invite.notes));
            let fixed = yes_body(invite.name, invite.guests, invite.vegetarians, Seq::empty());
            &&& body == fixed + escaped
            &&& forall|i: int| 0 <= i < escaped.len() ==> !crate::text::html_special(#[trigger] escaped[i])
            &&& crate::text::html_unescape(escaped) == match invite.notes {
                Some(n) => n,
                None => Seq::empty(),
            }
        }),
{
    crate::text::lemma_html_escape_round_trip(notes_text(invite.notes));
    crate::text::lemma_html_escape_has_no_special(notes_text(invite.notes));
    assert(html_escape(Seq::<char>::empty()) == Seq::<char>::empty());
    let fixed = yes_body(invite.name, invite.guests, invite.vegetarians, Seq::empty());
    assert(fixed + html_escape(notes_text(invite.notes)) == yes_body(
        invite.name,
        invite.guests,
        invite.vegetarians,
        notes_text(invite.notes),
    ));
}

} // verus!
