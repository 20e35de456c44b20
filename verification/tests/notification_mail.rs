use wedding_vanulio2025::{envelope, Invite, Language};

fn answered(name: &str, guests: u16, vegetarians: u16, notes: &str) -> Invite {
    let mut invite = Invite::new_pending(name.to_string(), 1, Language::English);
    invite.accept(guests, vegetarians, notes.to_string()).unwrap();
    invite
}

#[test]
fn attendance_mail_has_exact_subject_and_body() {
    let invite = answered("Anna", 3, 1, "see you");
    let mail = invite.notification().unwrap();
    assert_eq!(mail.subject, "YES RSVP Anna");
    assert_eq!(
        mail.html_body,
        "Anna has 3 guests attending the wedding.<br />\n                Vegetarians: 1<br />\n                Notes: see you"
    );
}

#[test]
fn attendance_mail_escapes_the_notes() {
    let invite = answered("Anna", 2, 0, "<b>Tom & 'Ann'</b> \"hi\"");
    let mail = invite.notification().unwrap();
    assert!(mail.html_body.ends_with(
        "Notes: &lt;b&gt;Tom &amp; &#x27;Ann&#x27;&lt;&#x2F;b&gt; &quot;hi&quot;"
    ));
    let notes_part = mail.html_body.rsplit("Notes: ").next().unwrap();
    for c in ['<', '>', '"', '\'', '/'] {
        assert!(!notes_part.contains(c));
    }
}

#[test]
fn attendance_mail_without_notes_ends_after_label() {
    let invite = answered("Anna", 0, 0, "");
    let mail = invite.notification().unwrap();
    assert_eq!(
        mail.html_body,
        "Anna has 0 guests attending the wedding.<br />\n                Vegetarians: 0<br />\n                Notes: "
    );
}

#[test]
fn attendance_mail_writes_large_numbers_in_decimal() {
    let invite = answered("Bo", 65535, 10, "");
    let mail = invite.notification().unwrap();
    assert!(mail.html_body.starts_with("Bo has 65535 guests attending"));
    assert!(mail.html_body.contains("Vegetarians: 10<br />"));
}

#[test]
fn decline_mail() {
    let mut invite = Invite::new_pending("Carla".to_string(), 2, Language::Italian);
    invite.decline();
    let mail = invite.notification().unwrap();
    assert_eq!(mail.subject, "NO RSVP Carla");
    assert_eq!(mail.html_body, "Carla has declined the invite :(");
}

#[test]
fn unanswered_invite_has_no_mail() {
    let invite = Invite::new_pending("Dario".to_string(), 2, Language::Italian);
    let err = invite.notification().err().unwrap();
    assert_eq!(err, "Invite not responded");
}

#[test]
fn mail_goes_to_both_and_comes_from_sender() {
    let env = envelope("sender@example.com".to_string(), "partner@example.com".to_string());
    assert_eq!(env.from.name, "Vanulio");
    assert_eq!(env.from.address, "sender@example.com");
    assert_eq!(env.to.len(), 2);
    assert_eq!(env.to[0].name, "Giulio");
    assert_eq!(env.to[0].address, "partner@example.com");
    assert_eq!(env.to[1].name, "Vanulio");
    assert_eq!(env.to[1].address, "sender@example.com");
}
