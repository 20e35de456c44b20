use vstd::prelude::*;

verus! {

/// Number of bytes an invite identifier must have.
pub const INVITE_ID_LEN: usize = 32;

/// The identifier of an invite: a text of exactly 32 bytes.
#[derive(Debug)]
pub struct InviteId {
    id: String,
}

impl View for InviteId {
    type V = Seq<char>;

    closed spec fn view(&self) -> Seq<char> {
        self.id@
    }
}

/// Whether `s` is accepted as an invite identifier: its UTF-8 encoding is 32 bytes long.
pub open spec fn valid_invite_id(s: Seq<char>) -> bool {
    vstd::utf8::encode_utf8(s).len() == INVITE_ID_LEN
}

/// A text of ASCII characters is a valid invite identifier exactly when it
/// has 32 characters.
pub proof fn lemma_ascii_id_length(s: Seq<char>)
    requires
        vstd::utf8::is_ascii_chars(s),
    ensures
        valid_invite_id(s) <==> s.len() == 32,
{
    vstd::utf8::is_ascii_chars_encode_utf8(s);
}

impl InviteId {
    #[verifier::type_invariant]
    closed spec fn inv(self) -> bool {
        valid_invite_id(self.id@)
    }

    /// Accepts `id` when it is 32 bytes long, and refuses it with
    /// "Invite id must be 32 characters long" otherwise.
    pub fn new(id: String) -> (res: Result<InviteId, String>)
        ensures
            res is Ok <==> valid_invite_id(id@),
            res matches Ok(v) ==> v@ == id@,
            res matches Err(msg) ==> msg@ == "Invite id must be 32 characters long"@,
    {
        if id.as_str().as_bytes().len() != INVITE_ID_LEN {
            return Err(String::from_str("Invite id must be 32 characters long"));
        }
        Ok(InviteId { id })
    }

    /// A copy of the identifier.
    pub fn duplicate(&self) -> (copy: InviteId)
        ensures
            copy@ == self@,
    {
        proof {
            use_type_invariant(self);
        }
        InviteId { id: self.id.clone() }
    }

    /// The identifier as text.
    pub fn as_str(&self) -> (s: &str)
        ensures
            s@ == self@,
            valid_invite_id(s@),
    {
        proof {
            use_type_invariant(self);
        }
        self.id.as_str()
    }
}


/// The language an invite is written in.
#[derive(Debug, Clone, Copy, PartialEq, Eq, Structural)]
pub enum Language {
    Italian,
    English,
}

/// The key under which the page texts of a language are kept.
pub open spec fn language_code(language: Language) -> Seq<char> {
    match language {
        Language::Italian => "it"@,
        Language::English => "en"@,
    }
}

impl Language {
    /// The key of this language's page texts: "it" or "en".
    pub fn code(&self) -> (code: &'static str)
        ensures
            code@ == language_code(*self),
    {
        match self {
            Language::Italian => "it",
            Language::English => "en",
        }
    }
}

/// An invitation and the answer given to it, as stored.
#[derive(Debug)]
pub struct Invite {
    pub name: String,
    pub responded: bool,
    pub attending: Option<bool>,
    pub notes: Option<String>,
    pub guests: u16,
    pub vegetarians: u16,
    pub language: Language,
}

/// The contents of an [`Invite`].
pub struct InviteView {
    pub name: Seq<char>,
    pub responded: bool,
    pub attending: Option<bool>,
    pub notes: Option<Seq<char>>,
    pub guests: u16,
    pub vegetarians: u16,
    pub language: Language,
}

/// The view of an optional text.
pub open spec fn opt_text(s: Option<String>) -> Option<Seq<char>> {
    match s {
        Some(t) => Some(t@),
        None => None,
    }
}

/// The notes kept for an answer: none when the guest wrote nothing.
pub open spec fn kept_notes(notes: Seq<char>) -> Option<Seq<char>> {
    if notes.len() == 0 {
        None
    } else {
        Some(notes)
    }
}

impl View for Invite {
    type V = InviteView;

    open spec fn view(&self) -> InviteView {
        InviteView {
            name: self.name@,
            responded: self.responded,
            attending: self.attending,
            notes: opt_text(self.notes),
            guests: self.guests,
            vegetarians: self.vegetarians,
            language: self.language,
        }
    }
}

impl InviteView {
    /// A new invite for `guests` people that nobody has answered yet.
    pub open spec fn pending(name: Seq<char>, guests: u16, language: Language) -> InviteView {
        InviteView {
            name,
            responded: false,
            attending: None,
            notes: None,
            guests,
            vegetarians: 0,
            language,
        }
    }

    /// The invite after the guests said they will come.
    pub open spec fn with_attendance(
        self,
        guests: u16,
        vegetarians: u16,
        notes: Seq<char>,
    ) -> InviteView {
        InviteView {
            responded: true,
            attending: Some(true),
            guests,
            vegetarians,
            notes: kept_notes(notes),
            ..self
        }
    }

    /// The invite after the guests declined it.
    pub open spec fn with_decline(self) -> InviteView {
        InviteView { responded: true, attending: Some(false), ..self }
    }
}

/// An attendance was given for an invite that has already been answered.
#[derive(Debug, Clone, Copy, PartialEq, Eq, Structural)]
pub struct AlreadyResponded;

impl Invite {
    /// A new invite for `guests` people in `language`, not answered yet,
    /// with no vegetarians and no notes.
    pub fn new_pending(name: String, guests: u16, language: Language) -> (invite: Invite)
        ensures
            invite@ == InviteView::pending(name@, guests, language),
            invite.name@ == name@,
            invite.guests == guests,
            invite.language == language,
            !invite.responded,
            invite.attending is None,
            invite.notes is None,
            invite.vegetarians == 0,
    {
        Invite {
            name,
            responded: false,
            attending: None,
            notes: None,
            guests,
            vegetarians: 0,
            language,
        }
    }

    /// Records that the guests will come: refused when the invite has
    /// already been answered, which leaves it as it was; otherwise the
    /// invite becomes answered and attending, with the new numbers of
    /// guests and vegetarians and the notes (none when `notes` is empty).
    pub fn accept(&mut self, guests: u16, vegetarians: u16, notes: String) -> (res: Result<
        (),
        AlreadyResponded,
    >)
        ensures
            res is Err <==> old(self).responded,
            res is Err ==> final(self)@ == old(self)@,
            res is Ok ==> final(self)@ == old(self)@.with_attendance(guests, vegetarians, notes@),
            res is Ok && notes@.len() > 0 ==> final(self).notes == Some(notes),
            res is Ok && notes@.len() == 0 ==> final(self).notes is None,
    {
        if self.responded {
            return Err(AlreadyResponded);
        }
        self.attending = Some(true);
        self.responded = true;
        self.guests = guests;
        self.vegetarians = vegetarians;
        self.notes = if notes.as_str().is_empty() {
            None
        } else {
            Some(notes)
        };
        Ok(())
    }

    /// Records that the guests will not come; whatever answer was given before is replaced.
    pub fn decline(&mut self)
        ensures
            final(self)@ == old(self)@.with_decline(),
    {
        self.attending = Some(false);
        self.responded = true;
    }

    /// A copy of the invite.
    pub fn duplicate(&self) -> (copy: Invite)
        ensures
            copy@ == self@,
    {
        let notes = match &self.notes {
            Some(n) => Some(n.clone()),
            None => None,
        };
        Invite {
            name: self.name.clone(),
            responded: self.responded,
            attending: self.attending,
            notes,
            guests: self.guests,
            vegetarians: self.vegetarians,
            language: self.language,
        }
    }
}

/// A new invite is for the people and in the language it was made with,
/// and nobody has answered it: its page and mail use that language.
pub proof fn lemma_pending_invite(name: Seq<char>, guests: u16, language: Language)
    ensures
        InviteView::pending(name, guests, language).name == name,
        InviteView::pending(name, guests, language).guests == guests,
        InviteView::pending(name, guests, language).language == language,
        language_code(InviteView::pending(name, guests, language).language) == language_code(
            language,
        ),
        !InviteView::pending(name, guests, language).responded,
        InviteView::pending(name, guests, language).attending is None,
        InviteView::pending(name, guests, language).notes is None,
        InviteView::pending(name, guests, language).vegetarians == 0,
{
}

/// The two languages have different page texts: Italian uses "it" and
/// English uses "en".
pub proof fn lemma_language_codes_differ()
    ensures
        language_code(Language::Italian) == seq!['i', 't'],
        language_code(Language::English) == seq!['e', 'n'],
        language_code(Language::Italian) != language_code(Language::English),
{
    reveal_strlit("it");
    reveal_strlit("en");
    assert(language_code(Language::Italian)[0] != language_code(Language::English)[0]);
}

/// Whatever non-empty notes a guest writes are kept whole, however long;
/// only empty notes are dropped.
pub proof fn lemma_notes_are_kept(notes: Seq<char>)
    ensures
        notes.len() > 0 ==> kept_notes(notes) == Some(notes),
        notes.len() == 0 ==> kept_notes(notes) is None,
{
}

/// An attendance records exactly what the guest sent: answered, attending,
/// the new numbers of guests and vegetarians and the notes (kept whole when
/// not empty), and keeps the name and language of the invite.
pub proof fn lemma_attendance_records_answer(
    invite: InviteView,
    guests: u16,
    vegetarians: u16,
    notes: Seq<char>,
)
    ensures
        ({
            let v = invite.with_attendance(guests, vegetarians, notes);
            &&& v.responded
            &&& v.attending == Some(true)
            &&& v.guests == guests
            &&& v.vegetarians == vegetarians
            &&& notes.len() > 0 ==> v.notes == Some(notes)
            &&& notes.len() == 0 ==> v.notes is None
            &&& v.name == invite.name
            &&& v.language == invite.language
        }),
{
}

/// A decline marks the invite answered and not attending, and changes
/// nothing else.
pub proof fn lemma_decline_records_answer(invite: InviteView)
    ensures
        invite.with_decline().responded,
        invite.with_decline().attending == Some(false),
        invite.with_decline().guests == invite.guests,
        invite.with_decline().vegetarians == invite.vegetarians,
        invite.with_decline().notes == invite.notes,
        invite.with_decline().name == invite.name,
        invite.with_decline().language == invite.language,
{
}

/// An invite is answered at most once with an attendance: once an
/// attendance or a decline has been recorded, the invite counts as
/// answered, so every later attendance is refused and changes nothing.
pub proof fn lemma_answer_is_final(
    invite: InviteView,
    guests: u16,
    vegetarians: u16,
    notes: Seq<char>,
)
    ensures
        invite.with_attendance(guests, vegetarians, notes).responded,
        invite.with_decline().responded,
{
}

/// An answer keeps who the invite is for and in which language it is written.
pub proof fn lemma_answer_keeps_identity(
    invite: InviteView,
    guests: u16,
    vegetarians: u16,
    notes: Seq<char>,
)
    ensures
        invite.with_attendance(guests, vegetarians, notes).name == invite.name,
        invite.with_attendance(guests, vegetarians, notes).language == invite.language,
        invite.with_decline().name == invite.name,
        invite.with_decline().language == invite.language,
        invite.with_decline().guests == invite.guests,
        invite.with_decline().notes == invite.notes,
{
}

} // verus!
