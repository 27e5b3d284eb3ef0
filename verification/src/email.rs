//! The mail platform: reading an incoming mail out of a posted form, the
//! conversation of its sender, and the reply that goes back.

use vstd::prelude::*;
use vstd::string::*;
use crate::database::{first_with_metadata, ChatHistoryDb, Message, Platform};
use crate::responder::Answer;
use crate::telegram::random_id;
use crate::text::{concat2, opt_text, pairs_view, trim, trimmed};

verus! {

/// The grammar of a sender: a name, then the address in angle brackets.
pub const SENDER_PATTERN: &'static str = "^(?P<name>[^<]+)\\s*<(?P<email>[^>]+)>$";

/// Seconds to wait for the mail service.
pub const MAIL_TIMEOUT_SECS: u64 = 10;

/// How many mails may be on their way to the mail service at once.
pub const MAIL_CONCURRENCY: usize = 16;

/// An incoming mail.
#[derive(Clone, Debug, PartialEq, Eq)]
pub struct ParsedEmail {
    pub title: String,
    pub body: String,
    pub sender_name: String,
    pub sender_email: String,
    pub message_id: String,
    pub date: String,
}

/// Why a mail was not read.
#[derive(Clone, Copy, Debug, PartialEq, Eq, Structural)]
pub enum EmailError {
    /// The sender does not follow the grammar.
    CannotParseSender,
    /// The sender follows the grammar, and no name was found in it.
    NoSenderName,
    /// The sender follows the grammar, and no address was found in it.
    NoSenderEmail,
}

/// How mail is sent.
#[derive(Clone, Debug, PartialEq, Eq)]
pub struct EmailConfig {
    pub mailgun_url: String,
    pub mailgun_key: String,
    /// The address that replies come from.
    pub address: String,
    /// What stands under every reply.
    pub signature: String,
    /// Who gets a copy of every reply.
    pub cc: Option<String>,
}

/// What to post to the mail service.
#[derive(Clone, Debug, PartialEq, Eq)]
pub struct OutgoingMail {
    pub url: String,
    pub authorization: String,
    pub form: Vec<(String, String)>,
}

/// The two named groups of the leftmost match of a pattern in a text, as
/// the `regex` crate finds them: `None` where the pattern is no pattern or
/// matches nowhere, and `None` for a group that took no part in the match.
pub uninterp spec fn regex_named_pair(
    pattern: Seq<char>,
    text: Seq<char>,
    first: Seq<char>,
    second: Seq<char>,
) -> Option<(Option<Seq<char>>, Option<Seq<char>>)>;

/// The base64 text of the bytes of `input`, standard alphabet, padded.
pub uninterp spec fn base64_text(input: Seq<char>) -> Seq<char>;

/// `s` as a JSON string literal, quotes included.
pub uninterp spec fn json_string(s: Seq<char>) -> Seq<char>;

/// The characters of a pair of optional texts.
pub open spec fn pair_text(pair: Option<(Option<String>, Option<String>)>) -> Option<
    (Option<Seq<char>>, Option<Seq<char>>),
> {
    match pair {
        Some((a, b)) => Some((opt_text(a), opt_text(b))),
        None => None,
    }
}

/// `Regex::new`, `Regex::captures` and `Captures::name` of the `regex`
/// crate, one after the other. The contract only names the outcome.
#[verifier::external_body]
fn named_pair(pattern: &str, text: &str, first: &str, second: &str) -> (r: Option<
    (Option<String>, Option<String>),
>)
    ensures
        pair_text(r) == regex_named_pair(pattern@, text@, first@, second@),
{
    let captures = regex::Regex::new(pattern).ok()?.captures(text)?;
    Some(
        (
            captures.name(first).map(|m| m.as_str().to_owned()),
            captures.name(second).map(|m| m.as_str().to_owned()),
        ),
    )
}

/// `base64::encode` on the bytes of a text. The contract only names the
/// result.
#[verifier::external_body]
fn base64_encode(input: &str) -> (r: String)
    ensures
        r@ == base64_text(input@),
{
    base64::encode(input)
}

/// `serde_json::to_string` on a text, which cannot fail on one. The
/// contract only names the result.
#[verifier::external_body]
fn json_quote(s: &str) -> (r: String)
    ensures
        r@ == json_string(s@),
{
    serde_json::to_string(s).unwrap_or_default()
}

/// The value of the last field of `form` named `key`.
pub open spec fn form_value(form: Seq<(String, String)>, key: Seq<char>) -> Option<Seq<char>>
    decreases form.len(),
{
    if form.len() == 0 {
        None
    } else if form.last().0@ == key {
        Some(form.last().1@)
    } else {
        form_value(form.drop_last(), key)
    }
}

/// The value of the field `key`, or `default` where the form has none.
pub open spec fn field_or(form: Seq<(String, String)>, key: Seq<char>, default: Seq<char>) -> Seq<
    char,
> {
    match form_value(form, key) {
        Some(value) => value,
        None => default,
    }
}

/// See [`field_or`].
pub fn field(form: &Vec<(String, String)>, key: &str, default: &str) -> (r: String)
    ensures
        r@ == field_or(form@, key@, default@),
{
    let wanted = String::from_str(key);
    let mut n: usize = form.len();
    assert(form@.take(n as int) =~= form@);
    while n > 0
        invariant
            n <= form.len(),
            wanted@ == key@,
            form_value(form@, key@) == form_value(form@.take(n as int), key@),
        decreases n,
    {
        let ghost seen = form@.take(n as int);
        assert(seen.last() == form@[n - 1]);
        assert(seen.drop_last() =~= form@.take(n - 1));
        if form[n - 1].0 == wanted {
            return form[n - 1].1.clone();
        }
        n -= 1;
    }
    String::from_str(default)
}

/// `mail` is what `form` holds, with a sender of this name and address:
/// every field that the form lacks has its stand-in, and name and address
/// have no white space around them.
pub open spec fn reads_mail(
    mail: ParsedEmail,
    form: Seq<(String, String)>,
    name: Seq<char>,
    address: Seq<char>,
) -> bool {
    &&& mail.title@ == field_or(form, "subject"@, "Unknown Subject"@)
    &&& mail.body@ == field_or(form, "body-plain"@, "No Content"@)
    &&& mail.message_id@ == field_or(form, "Message-Id"@, "No Message-Id"@)
    &&& mail.date@ == field_or(form, "Date"@, "No Message-Id"@)
    &&& mail.sender_name@ == trimmed(name)
    &&& mail.sender_email@ == trimmed(address)
}

/// The mail in `form`, given what the grammar of a sender found in the
/// field `from`.
pub open spec fn mail_in(
    form: Seq<(String, String)>,
    found: Option<(Option<Seq<char>>, Option<Seq<char>>)>,
    r: Result<ParsedEmail, EmailError>,
) -> bool {
    match found {
        None => r matches Err(EmailError::CannotParseSender),
        Some((None, _)) => r matches Err(EmailError::NoSenderName),
        Some((Some(_), None)) => r matches Err(EmailError::NoSenderEmail),
        Some((Some(name), Some(address))) => r matches Ok(mail) && reads_mail(
            mail,
            form,
            name,
            address,
        ),
    }
}

/// The sender of a form: the field `from`, with a stand-in that the
/// grammar does not accept.
pub open spec fn sender_of(form: Seq<(String, String)>) -> Seq<char> {
    field_or(form, "from"@, "Unknown Sender"@)
}

/// Builds the mail out of the form and of what the grammar found in its
/// sender.
pub fn mail_from_parts(form: &Vec<(String, String)>, found: Option<(Option<String>, Option<String>)>)
    -> (r: Result<ParsedEmail, EmailError>)
    ensures
        mail_in(form@, pair_text(found), r),
{
    let (name, address) = match found {
        None => {
            return Err(EmailError::CannotParseSender);
        },
        Some((None, _)) => {
            return Err(EmailError::NoSenderName);
        },
        Some((Some(_), None)) => {
            return Err(EmailError::NoSenderEmail);
        },
        Some((Some(name), Some(address))) => (name, address),
    };
    Ok(
        ParsedEmail {
            title: field(form, "subject", "Unknown Subject"),
            body: field(form, "body-plain", "No Content"),
            sender_name: trim(name.as_str()),
            sender_email: trim(address.as_str()),
            message_id: field(form, "Message-Id", "No Message-Id"),
            date: field(form, "Date", "No Message-Id"),
        },
    )
}

/// Reads an incoming mail out of a posted form.
pub fn parse_email(form: &Vec<(String, String)>) -> (r: Result<ParsedEmail, EmailError>)
    ensures
        mail_in(
            form@,
            regex_named_pair(SENDER_PATTERN@, sender_of(form@), "name"@, "email"@),
            r,
        ),
{
    let sender = field(form, "from", "Unknown Sender");
    let found = named_pair(SENDER_PATTERN, sender.as_str(), "name", "email");
    mail_from_parts(form, found)
}

/// The metadata of the conversation with the sender at `user_email`.
pub fn make_email_metadata(user_email: &str) -> (r: String)
    ensures
        r@ == "{\"user\":"@ + json_string(user_email@) + "}"@,
{
    let quoted = json_quote(user_email);
    let mut out = concat2("{\"user\":", quoted.as_str());
    out.append("}");
    out
}

/// The conversation with a sender, given the id `fresh` for one that
/// begins: the stored conversation with the sender's metadata where there
/// is one.
pub fn resolve_sender(db: &ChatHistoryDb, email_metadata: &str, fresh: i64) -> (id: i64)
    ensures
        id == match first_with_metadata(db.conversations(), email_metadata@) {
            Some(known) => known,
            None => fresh,
        },
{
    match db.email_metadata_to_id(email_metadata) {
        Some(known) => known,
        None => fresh,
    }
}

/// The conversation with a sender: the stored one where the sender is
/// known, whatever else holds; only a conversation that begins gets an id
/// drawn at random, of 63 bits.
pub fn get_convo_id(db: &ChatHistoryDb, email_metadata: &str) -> (id: i64)
    ensures
        match first_with_metadata(db.conversations(), email_metadata@) {
            Some(known) => id == known,
            None => 0 <= id,
        },
{
    match db.email_metadata_to_id(email_metadata) {
        Some(known) => known,
        None => random_id(),
    }
}

/// The turn that a mail makes: its title, a colon, its body.
pub fn mail_turn(mail: &ParsedEmail, convo_id: i64) -> (r: Message)
    ensures
        r.convo_id == convo_id,
        r.text@ == mail.title@ + ": "@ + mail.body@,
{
    let mut text = concat2(mail.title.as_str(), ": ");
    text.append(mail.body.as_str());
    Message { text, convo_id }
}

/// Reads a posted form as a mail and as a turn: the mail in the form, and
/// the turn that it makes in the conversation with its sender, which is the
/// stored one where the sender is known and a new one with a random id of
/// 63 bits where not.
pub fn read_mail(db: &ChatHistoryDb, form: &Vec<(String, String)>) -> (r: Result<
    (ParsedEmail, Message),
    EmailError,
>)
    ensures
        match r {
            Ok((mail, turn)) => {
                &&& mail_in(
                    form@,
                    regex_named_pair(SENDER_PATTERN@, sender_of(form@), "name"@, "email"@),
                    Ok(mail),
                )
                &&& turn.text@ == mail.title@ + ": "@ + mail.body@
                &&& match first_with_metadata(
                    db.conversations(),
                    "{\"user\":"@ + json_string(mail.sender_email@) + "}"@,
                ) {
                    Some(known) => turn.convo_id == known,
                    None => 0 <= turn.convo_id,
                }
            },
            Err(e) => mail_in(
                form@,
                regex_named_pair(SENDER_PATTERN@, sender_of(form@), "name"@, "email"@),
                Err(e),
            ),
        },
{
    match parse_email(form) {
        Err(e) => Err(e),
        Ok(mail) => {
            let metadata = make_email_metadata(mail.sender_email.as_str());
            let convo_id = get_convo_id(db, metadata.as_str());
            let turn = mail_turn(&mail, convo_id);
            Ok((mail, turn))
        },
    }
}

/// A reply as it is mailed: the answer, the signature, and the mail that is
/// answered as a quotation.
pub open spec fn reply_text(answer: Seq<char>, signature: Seq<char>, mail: ParsedEmail) -> Seq<
    char,
> {
    answer + "\n\n"@ + signature + "\n\n\n\n> ------- Original Message -------\nOn "@ + mail.date@
        + ", "@ + mail.sender_name@ + " <"@ + mail.sender_email@ + "> wrote:\n\n"@ + mail.body@
}

/// See [`reply_text`].
pub fn format_reply(answer: &str, signature: &str, mail: &ParsedEmail) -> (r: String)
    ensures
        r@ == reply_text(answer@, signature@, *mail),
{
    let mut out = concat2(answer, "\n\n");
    out.append(signature);
    out.append("\n\n\n\n> ------- Original Message -------\nOn ");
    out.append(mail.date.as_str());
    out.append(", ");
    out.append(mail.sender_name.as_str());
    out.append(" <");
    out.append(mail.sender_email.as_str());
    out.append("> wrote:\n\n");
    out.append(mail.body.as_str());
    out
}

/// The header value that authorizes a post to the mail service.
pub fn basic_auth(mailgun_key: &str) -> (r: String)
    ensures
        r@ == "Basic "@ + base64_text("api:"@ + mailgun_key@),
{
    let credentials = concat2("api:", mailgun_key);
    let encoded = base64_encode(credentials.as_str());
    concat2("Basic ", encoded.as_str())
}

/// The fields of a mail: sender, receiver, subject and text, then the
/// receiver of a copy where there is one, then the mail that is answered
/// where there is one.
pub open spec fn mail_fields(
    address: Seq<char>,
    to: Seq<char>,
    subject: Seq<char>,
    body: Seq<char>,
    cc: Option<Seq<char>>,
    in_reply_to: Option<Seq<char>>,
) -> Seq<(Seq<char>, Seq<char>)> {
    let base = seq![("from"@, address), ("to"@, to), ("subject"@, subject), ("text"@, body)];
    let copied = match cc {
        Some(cc) => base.push(("cc"@, cc)),
        None => base,
    };
    match in_reply_to {
        Some(id) => copied.push(("h:In-Reply-To"@, id)),
        None => copied,
    }
}

/// The characters of an optional text slice.
pub open spec fn opt_str(o: Option<&str>) -> Option<Seq<char>> {
    match o {
        Some(s) => Some(s@),
        None => None,
    }
}

/// What to post to the mail service so that `body` reaches `to`.
pub fn send_email(
    config: &EmailConfig,
    subject: &str,
    body: &str,
    to: &str,
    in_reply_to: Option<&str>,
) -> (r: OutgoingMail)
    ensures
        r.url@ == config.mailgun_url@,
        r.authorization@ == "Basic "@ + base64_text("api:"@ + config.mailgun_key@),
        pairs_view(r.form@) == mail_fields(
            config.address@,
            to@,
            subject@,
            body@,
            opt_text(config.cc),
            opt_str(in_reply_to),
        ),
{
    let mut form: Vec<(String, String)> = Vec::new();
    form.push(("from".to_owned(), config.address.clone()));
    form.push(("to".to_owned(), String::from_str(to)));
    form.push(("subject".to_owned(), String::from_str(subject)));
    form.push(("text".to_owned(), String::from_str(body)));
    match &config.cc {
        Some(cc) => {
            form.push(("cc".to_owned(), cc.clone()));
        },
        None => {},
    }
    match in_reply_to {
        Some(id) => {
            form.push(("h:In-Reply-To".to_owned(), String::from_str(id)));
        },
        None => {},
    }
    assert(pairs_view(form@) =~= mail_fields(
        config.address@,
        to@,
        subject@,
        body@,
        opt_text(config.cc),
        opt_str(in_reply_to),
    ));
    OutgoingMail {
        url: config.mailgun_url.clone(),
        authorization: basic_auth(config.mailgun_key.as_str()),
        form,
    }
}

/// Stores the exchange and names what to mail. Where the answer is
/// suppressed or empty, nothing is stored and nothing is mailed. Otherwise
/// the turn and the reply as it is mailed are appended to the store, in
/// this order, under the sender's metadata, and the reply goes to the
/// sender as an answer to the mail.
pub fn settle_mail(
    db: &mut ChatHistoryDb,
    config: &EmailConfig,
    mail: &ParsedEmail,
    message: &Message,
    answer: &Answer,
) -> (r: Option<OutgoingMail>)
    requires
        old(db).wf(),
    ensures
        final(db).wf(),
        match answer.deliverable() {
            None => {
                &&& r is None
                &&& final(db).messages() == old(db).messages()
                &&& final(db).conversations() == old(db).conversations()
                &&& final(db).facts() == old(db).facts()
            },
            Some(text) => {
                let reply = reply_text(text, config.signature@, *mail);
                &&& final(db).holds_exchange(*old(db), message.convo_id, message.text@, reply)
                &&& final(db).conversations().last().convo_id == message.convo_id
                &&& final(db).conversations().last().platform == Platform::Email
                &&& final(db).conversations().last().metadata@ == "{\"user\":"@ + json_string(
                    mail.sender_email@,
                ) + "}"@
                &&& r matches Some(out)
                &&& out.url@ == config.mailgun_url@
                &&& out.authorization@ == "Basic "@ + base64_text("api:"@ + config.mailgun_key@)
                &&& pairs_view(out.form@) == mail_fields(
                    config.address@,
                    mail.sender_email@,
                    "RE: "@ + mail.title@,
                    reply,
                    opt_text(config.cc),
                    Some(mail.message_id@),
                )
            },
        },
{
    match answer.text_to_deliver() {
        None => None,
        Some(text) => {
            let reply = format_reply(text, config.signature.as_str(), mail);
            let metadata = make_email_metadata(mail.sender_email.as_str());
            db.insert_exchange(message, reply.as_str(), Platform::Email, metadata.as_str());
            let subject = concat2("RE: ", mail.title.as_str());
            Some(
                send_email(
                    config,
                    subject.as_str(),
                    reply.as_str(),
                    mail.sender_email.as_str(),
                    Some(mail.message_id.as_str()),
                ),
            )
        },
    }
}

/// What the sender of the form is told: that all went well, or what went
/// wrong.
pub fn webhook_answer(failure: Option<&str>) -> (r: String)
    ensures
        r@ == match failure {
            None => "Success"@,
            Some(why) => "Our email bot encountered an error! "@ + why@
                + "\nPlease try sending your email again!"@,
        },
{
    match failure {
        None => "Success".to_owned(),
        Some(why) => {
            let mut out = concat2("Our email bot encountered an error! ", why);
            out.append("\nPlease try sending your email again!");
            out
        },
    }
}

} // verus!
