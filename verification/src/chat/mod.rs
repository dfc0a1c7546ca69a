//! Product-scoped messaging between buyers and sellers.
use vstd::prelude::*;
use vstd::utf8::*;

use crate::auth::AuthContext;
use crate::error::{auth_error, forbidden, not_found, validation, Error, Fault};
use crate::fields;
use crate::ids;
use crate::json;
use crate::json::{json_of, jsons, Json};
use crate::lists::as_ints;
use crate::text;
use crate::time;
use crate::time::{read_instant, stored_instant, Timestamp};

pub mod flow;
pub mod sanitize;
pub mod support;

pub use self::sanitize::_sanitize_text;
pub use self::support::{SupportChatRequest, SupportChatResponse, SupportMessage};

verus! {

/// The most bytes that a message text may have.
pub const MAX_MESSAGE_LENGTH: usize = 2000;

/// The most images that a message may carry.
pub const MAX_IMAGES_PER_MESSAGE: usize = 5;

/// The most messages that a thread may hold.
pub const MAX_MESSAGES_PER_THREAD: i64 = 10_000;

/// The most messages that a user may send in a minute.
pub const CHAT_RATE_LIMIT_PER_MINUTE: u64 = 60;

// ------------------------------------------------------- requests and answers

#[derive(Debug, Clone)]
pub struct GetOrCreateChatRequest {
    pub other_user_id: String,
    pub product_id: Option<String>,
}

#[derive(Debug)]
pub struct GetOrCreateChatResponse {
    pub chat_id: String,
    pub is_new: bool,
}

#[derive(Debug)]
pub struct SendMessageRequest {
    pub chat_id: String,
    pub message_text: Option<String>,
    pub image_urls: Option<Vec<String>>,
    pub message_id: Option<String>,
}

#[derive(Debug)]
pub struct SendMessageResponse {
    pub success: bool,
    pub message_id: String,
}

#[derive(Debug)]
pub struct MarkReadRequest {
    pub chat_id: String,
}

#[derive(Debug)]
pub struct MarkReadResponse {
    pub success: bool,
    pub count: i64,
}

#[derive(Debug)]
pub struct DeleteMessageRequest {
    pub chat_id: String,
    pub message_id: String,
}

#[derive(Debug)]
pub struct SuccessResponse {
    pub success: bool,
}

#[derive(Debug)]
pub struct ReportMessageRequest {
    pub chat_id: String,
    pub message_id: String,
    pub reason: Option<String>,
}

#[derive(Debug)]
pub struct ReportResponse {
    pub success: bool,
    pub report_id: String,
}

// --------------------------------------------------------- threads and access

/// The buyer of a thread, empty where it names none.
pub open spec fn buyer_of(chat: Json) -> Seq<char> {
    json::text_or_empty(chat, fields::BUYER_ID@)
}

/// The seller of a thread, empty where it names none.
pub open spec fn seller_of(chat: Json) -> Seq<char> {
    json::text_or_empty(chat, fields::SELLER_ID@)
}

/// `uid` is the buyer or the seller of the thread.
pub open spec fn participates(uid: Seq<char>, chat: Json) -> bool {
    uid == buyer_of(chat) || uid == seller_of(chat)
}

/// Whether `uid` is the buyer of the thread.
pub fn is_buyer(uid: &str, chat: &serde_json::Value) -> (r: bool)
    ensures
        r == (uid@ == buyer_of(json_of(*chat))),
{
    text::same(uid, json::text_field_or_empty(chat, fields::BUYER_ID))
}

/// Whether `uid` is the seller of the thread.
pub fn is_seller(uid: &str, chat: &serde_json::Value) -> (r: bool)
    ensures
        r == (uid@ == seller_of(json_of(*chat))),
{
    text::same(uid, json::text_field_or_empty(chat, fields::SELLER_ID))
}

/// The identifier of the thread between a buyer and the seller of a product.
pub fn product_scoped_chat_id(product_id: &str, buyer_id: &str) -> (r: String)
    ensures
        r@ == product_id@ + "_"@ + buyer_id@,
{
    let head = text::join2(product_id, "_");
    text::join2(head.as_str(), buyer_id)
}

/// The instant that an RFC 3339 text names.
pub fn parse_rfc3339(ts: &str) -> (r: Option<Timestamp>)
    ensures
        r == time::rfc3339_instant(ts@),
        r matches Some(t) ==> t.in_calendar(),
{
    time::parse_instant(ts)
}

/// The subscription is an active one.
pub open spec fn premium(subscription: Json) -> bool {
    json::text_at(subscription, fields::STATUS@) == Some("active"@)
}

/// Whether a subscription document, `null` for none, makes its user premium.
pub fn is_premium(subscription: &serde_json::Value) -> (r: bool)
    ensures
        r == premium(json_of(*subscription)),
{
    match json::text_field(subscription, fields::STATUS) {
        Some(s) => text::same(s, "active"),
        None => false,
    }
}

// ------------------------------------------------------------ sending: request

/// A message that passed the checks on its request.
pub struct PendingMessage {
    pub chat_id: String,
    pub sender_id: String,
    pub text: String,
    pub image_urls: Vec<String>,
    pub message_id: Option<String>,
}

/// The text of a request before it is sanitized.
pub open spec fn raw_text(req: SendMessageRequest) -> Seq<char> {
    match req.message_text {
        Some(s) => s@,
        None => Seq::empty(),
    }
}

/// The images of a request.
pub open spec fn images(req: SendMessageRequest) -> Seq<String> {
    match req.image_urls {
        Some(v) => v@,
        None => Seq::empty(),
    }
}

/// An image address that uses HTTPS.
pub open spec fn is_https(url: Seq<char>) -> bool {
    text::occurs_at(url, "https://"@, 0)
}

/// An image address on the content network.
pub open spec fn is_on_cdn(url: Seq<char>) -> bool {
    text::occurs(url, "storage.googleapis.com"@) || text::occurs(url, "cdn"@)
}

/// Why the images of a message are refused.
pub open spec fn image_refusal(urls: Seq<String>) -> Option<Fault> {
    if urls.len() > MAX_IMAGES_PER_MESSAGE {
        Some(Fault::Validation("Maximum 5 images per message."@))
    } else if exists|i: int| 0 <= i < urls.len() && !is_https(#[trigger] urls[i]@) {
        Some(Fault::Validation("Image URLs must use HTTPS"@))
    } else if exists|i: int| 0 <= i < urls.len() && !is_on_cdn(#[trigger] urls[i]@) {
        Some(
            Fault::Validation(
                "Chat images must be uploaded to the Origna CDN before sending."@,
            ),
        )
    } else {
        None
    }
}

/// Why a message is refused on its request alone, where `clean` is its
/// sanitized text.
pub open spec fn message_refusal(
    auth: AuthContext,
    req: SendMessageRequest,
    clean: Seq<char>,
) -> Option<Fault> {
    if !auth.authenticated {
        Some(Fault::Auth("Authentication required."@))
    } else if req.chat_id@.len() == 0 || (raw_text(req).len() == 0 && images(req).len() == 0) {
        Some(Fault::Validation("chatId and text/images required."@))
    } else if image_refusal(images(req)) is Some {
        image_refusal(images(req))
    } else if !text::is_blank(raw_text(req)) && clean.len() == 0 {
        Some(Fault::Validation("Message text is too short after sanitization."@))
    } else if encode_utf8(clean).len() > MAX_MESSAGE_LENGTH {
        Some(Fault::Validation("Message exceeds 2000 characters."@))
    } else {
        None
    }
}

/// Checks the images of a message.
pub fn check_images(urls: &Vec<String>) -> (r: Result<(), Error>)
    ensures
        match r {
            Ok(()) => image_refusal(urls@) is None,
            Err(e) => image_refusal(urls@) == Some(e@),
        },
{
    if urls.len() > MAX_IMAGES_PER_MESSAGE {
        return Err(validation("Maximum 5 images per message."));
    }
    let mut i: usize = 0;
    while i < urls.len()
        invariant
            i <= urls@.len() <= MAX_IMAGES_PER_MESSAGE,
            forall|j: int| 0 <= j < i ==> is_https(#[trigger] urls@[j]@),
        decreases urls@.len() - i,
    {
        if !text::starts_with(urls[i].as_str(), "https://") {
            return Err(validation("Image URLs must use HTTPS"));
        }
        i = i + 1;
    }
    let mut k: usize = 0;
    while k < urls.len()
        invariant
            k <= urls@.len() <= MAX_IMAGES_PER_MESSAGE,
            forall|j: int| 0 <= j < urls@.len() ==> is_https(#[trigger] urls@[j]@),
            forall|j: int| 0 <= j < k ==> is_on_cdn(#[trigger] urls@[j]@),
        decreases urls@.len() - k,
    {
        let url = urls[k].as_str();
        if !text::contains(url, "storage.googleapis.com") && !text::contains(url, "cdn") {
            return Err(
                validation("Chat images must be uploaded to the Origna CDN before sending."),
            );
        }
        k = k + 1;
    }
    Ok(())
}

/// Checks a message on its request, where `clean` is its sanitized text.
pub fn prepare_message(auth: &AuthContext, req: SendMessageRequest, clean: String) -> (r: Result<
    PendingMessage,
    Error,
>)
    ensures
        match r {
            Ok(m) => {
                &&& message_refusal(*auth, req, clean@) is None
                &&& m.chat_id == req.chat_id
                &&& m.sender_id@ == auth.user_id@
                &&& m.text == clean
                &&& m.image_urls@ == images(req)
                &&& m.message_id == req.message_id
            },
            Err(e) => message_refusal(*auth, req, clean@) == Some(e@),
        },
{
    if !auth.authenticated {
        return Err(auth_error("Authentication required."));
    }
    let (no_text, blank) = match &req.message_text {
        Some(s) => (s.as_str().is_empty(), text::blank(s.as_str())),
        None => (true, true),
    };
    let no_images = match &req.image_urls {
        Some(v) => v.is_empty(),
        None => true,
    };
    if req.chat_id.as_str().is_empty() || (no_text && no_images) {
        return Err(validation("chatId and text/images required."));
    }
    if let Some(urls) = &req.image_urls {
        if let Err(e) = check_images(urls) {
            return Err(e);
        }
    }
    if !blank && clean.as_str().is_empty() {
        return Err(validation("Message text is too short after sanitization."));
    }
    if text::byte_len(clean.as_str()) > MAX_MESSAGE_LENGTH {
        return Err(validation("Message exceeds 2000 characters."));
    }
    let image_urls = match req.image_urls {
        Some(v) => v,
        None => Vec::new(),
    };
    Ok(
        PendingMessage {
            chat_id: req.chat_id,
            sender_id: auth.user_id.clone(),
            text: clean,
            image_urls,
            message_id: req.message_id,
        },
    )
}

/// Sanitizes the text of a message and checks its request. There is no outcome
/// where the regular expression engine refuses a pattern.
pub fn compose_message<F: Fn(&str) -> String>(
    auth: &AuthContext,
    req: SendMessageRequest,
    sanitize_html: F,
) -> (r: Option<Result<PendingMessage, Error>>)
    requires
        forall|s: &str| call_requires(sanitize_html, (s,)),
    ensures
        match r {
            None => sanitize::sanitizes(sanitize_html, raw_text(req), None),
            Some(Ok(m)) => {
                &&& sanitize::sanitizes(sanitize_html, raw_text(req), Some(m.text@))
                &&& message_refusal(*auth, req, m.text@) is None
                &&& m.chat_id == req.chat_id
                &&& m.sender_id@ == auth.user_id@
                &&& m.image_urls@ == images(req)
                &&& m.message_id == req.message_id
            },
            Some(Err(e)) => exists|clean: Seq<char>|
                #[trigger] sanitize::sanitizes(sanitize_html, raw_text(req), Some(clean))
                    && message_refusal(*auth, req, clean) == Some(e@),
        },
{
    let clean = match &req.message_text {
        Some(s) => sanitize::_sanitize_text(s.as_str(), sanitize_html)?,
        None => String::new(),
    };
    assert(sanitize::sanitizes(sanitize_html, raw_text(req), Some(clean@)));
    Some(prepare_message(auth, req, clean))
}

// ------------------------------------------------------------- sending: thread

/// The same text was stored less than five seconds before `now`.
pub open spec fn is_repeat(text: Seq<char>, chat: Json, now: Timestamp) -> bool {
    &&& text.len() > 0
    &&& json::text_at(chat, fields::LAST_MESSAGE_TEXT@) == Some(text)
    &&& stored_instant(chat, fields::UPDATED_AT@) matches Some(t) && time::seconds_between(now, t)
        < 5
}

/// The number of messages that a thread holds.
pub open spec fn message_count(chat: Json) -> i64 {
    json::int_at_or(chat, fields::MESSAGE_COUNT@, 0)
}

/// Why a thread does not take a message of `sender`.
pub open spec fn thread_refusal(
    sender: Seq<char>,
    text: Seq<char>,
    chat: Json,
    now: Timestamp,
) -> Option<Fault> {
    if !participates(sender, chat) {
        Some(Fault::Forbidden("Access denied."@))
    } else if is_repeat(text, chat, now) {
        Some(Fault::Validation("Message already sent."@))
    } else if message_count(chat) >= MAX_MESSAGES_PER_THREAD {
        Some(Fault::Validation("Chat limit reached for this thread."@))
    } else {
        None
    }
}

/// Checks that the thread takes the message.
pub fn check_thread(
    message: &PendingMessage,
    chat: &serde_json::Value,
    now: Timestamp,
) -> (r: Result<(), Error>)
    requires
        now.of_clock(),
    ensures
        match r {
            Ok(()) => thread_refusal(message.sender_id@, message.text@, json_of(*chat), now)
                is None,
            Err(e) => thread_refusal(message.sender_id@, message.text@, json_of(*chat), now)
                == Some(e@),
        },
{
    let uid = message.sender_id.as_str();
    if !is_buyer(uid, chat) && !is_seller(uid, chat) {
        return Err(forbidden("Access denied."));
    }
    if !message.text.as_str().is_empty() {
        if let Some(last) = json::text_field(chat, fields::LAST_MESSAGE_TEXT) {
            if text::same(last, message.text.as_str()) {
                if let Some(t) = read_instant(chat, fields::UPDATED_AT) {
                    if time::elapsed_seconds(now, t) < 5 {
                        return Err(validation("Message already sent."));
                    }
                }
            }
        }
    }
    if json::int_field_or(chat, fields::MESSAGE_COUNT, 0) >= MAX_MESSAGES_PER_THREAD {
        return Err(validation("Chat limit reached for this thread."));
    }
    Ok(())
}

/// Checks that a buyer who sends is premium; sellers need not be.
pub fn check_sender_premium(
    message: &PendingMessage,
    chat: &serde_json::Value,
    premium: bool,
) -> (r: Result<(), Error>)
    ensures
        match r {
            Ok(()) => premium || message.sender_id@ != buyer_of(json_of(*chat)),
            Err(e) => !premium && message.sender_id@ == buyer_of(json_of(*chat)) && e@
                == Fault::Forbidden("Premium required."@),
        },
{
    if is_buyer(message.sender_id.as_str(), chat) && !premium {
        return Err(forbidden("Premium required."));
    }
    Ok(())
}

/// The identifier of the message: the one that was asked for, or a fresh one.
pub fn message_id_for(message: &PendingMessage) -> (r: String)
    ensures
        match message.message_id {
            Some(id) => r@ == id@,
            None => exists|bytes: [u8; 16]|
                ids::is_random_id(bytes@) && r@ == ids::hyphenated(#[trigger] bytes@),
        },
{
    match &message.message_id {
        Some(id) => id.clone(),
        None => ids::fresh_id(),
    }
}

/// Whether the message was stored before: it came with an identifier of its
/// own, and the lookup of that identifier found a document.
pub fn is_replay(message: &PendingMessage, existing: &serde_json::Value) -> (r: bool)
    ensures
        r == (message.message_id is Some && !(json_of(*existing) is Null)),
{
    match &message.message_id {
        Some(_) => !json::is_null(existing),
        None => false,
    }
}

/// A message as it is stored.
pub struct StoredMessage {
    pub chat_id: String,
    pub sender_id: String,
    pub sender_display_name: String,
    pub message_text: String,
    pub image_urls: Vec<String>,
    pub created_at: String,
    pub read: bool,
    pub deleted: bool,
}

/// The name that a sender is shown by.
pub open spec fn sender_name(user: Json) -> Seq<char> {
    json::text_at_or(user, fields::NAME@, "Someone"@)
}

/// `r` is the document of a message of `sender`, stored at `stamp`.
pub open spec fn stores(
    r: StoredMessage,
    message: PendingMessage,
    sender: Json,
    stamp: Seq<char>,
) -> bool {
    &&& r.chat_id == message.chat_id
    &&& r.sender_id == message.sender_id
    &&& r.sender_display_name@ == sender_name(sender)
    &&& r.message_text == message.text
    &&& r.image_urls == message.image_urls
    &&& r.created_at@ == stamp
    &&& !r.read
    &&& !r.deleted
}

/// The document of a new message.
pub fn stored_message(message: PendingMessage, sender: &serde_json::Value, now: Timestamp) -> (r:
    StoredMessage)
    requires
        now.of_clock(),
    ensures
        stores(r, message, json_of(*sender), time::rfc3339_text(now)),
{
    let name = json::text_field_or(sender, fields::NAME, "Someone");
    StoredMessage {
        chat_id: message.chat_id,
        sender_id: message.sender_id,
        sender_display_name: name.to_owned(),
        message_text: message.text,
        image_urls: message.image_urls,
        created_at: time::to_rfc3339(now),
        read: false,
        deleted: false,
    }
}

/// What a new message changes on its thread.
pub struct ThreadUpdate {
    /// The beginning of the text.
    pub last_message: String,
    pub last_message_text: String,
    pub last_message_at: String,
    pub updated_at: String,
    pub message_count: i64,
    /// Whether the seller's unread count changes; the buyer's does otherwise.
    pub for_seller: bool,
    pub unread_count: i64,
    /// Set by the buyer's first message.
    pub first_buyer_message_at: Option<String>,
    /// Set by the seller's first reply.
    pub first_seller_reply_at: Option<String>,
    /// The minutes from the buyer's first message to the seller's first reply.
    pub first_reply_minutes: Option<i64>,
}

/// The unread count that a message of `sender` adds to.
pub open spec fn unread_field(sender: Seq<char>, chat: Json) -> Seq<char> {
    if sender == buyer_of(chat) {
        fields::SELLER_UNREAD_COUNT@
    } else {
        fields::BUYER_UNREAD_COUNT@
    }
}

/// The buyer's first message in the thread.
pub open spec fn opens_thread(sender: Seq<char>, chat: Json) -> bool {
    sender == buyer_of(chat) && json::member(chat, fields::FIRST_BUYER_MESSAGE_AT@) is None
}

/// The instant of the buyer's first message, where this is the seller's first
/// reply to it.
pub open spec fn replied_to(sender: Seq<char>, chat: Json) -> Option<Timestamp> {
    if !opens_thread(sender, chat) && sender == seller_of(chat) && json::member(
        chat,
        fields::FIRST_SELLER_REPLY_AT@,
    ) is None {
        stored_instant(chat, fields::FIRST_BUYER_MESSAGE_AT@)
    } else {
        None
    }
}

/// A text cut after its first 100 bytes.
fn preview(s: &str) -> (r: String)
    requires
        encode_utf8(s@).len() > 100 ==> is_char_boundary(encode_utf8(s@), 100),
    ensures
        encode_utf8(s@).len() <= 100 ==> r@ == s@,
        encode_utf8(s@).len() > 100 ==> encode_utf8(r@) == encode_utf8(s@).take(100),
{
    if text::byte_len(s) > 100 {
        let (head, _) = s.split_at(100);
        head.to_owned()
    } else {
        s.to_owned()
    }
}

/// `u` is what a message of `sender` with the text `body`, stored at `now`,
/// changes on its thread: it is counted for the thread and for the other side,
/// and the first message of the buyer and the first reply of the seller are
/// noted.
pub open spec fn updates_thread(
    u: ThreadUpdate,
    sender: Seq<char>,
    body: Seq<char>,
    chat: Json,
    now: Timestamp,
) -> bool {
    let stamp = time::rfc3339_text(now);
    &&& encode_utf8(body).len() <= 100 ==> u.last_message@ == body
    &&& encode_utf8(body).len() > 100 ==> encode_utf8(u.last_message@) == encode_utf8(body).take(
        100,
    )
    &&& u.last_message_text@ == body
    &&& u.last_message_at@ == stamp
    &&& u.updated_at@ == stamp
    &&& u.message_count == message_count(chat) + 1
    &&& u.for_seller == (sender == buyer_of(chat))
    &&& u.unread_count == json::int_at_or(chat, unread_field(sender, chat), 0) + 1
    &&& match u.first_buyer_message_at {
        Some(s) => opens_thread(sender, chat) && s@ == stamp,
        None => !opens_thread(sender, chat),
    }
    &&& match u.first_seller_reply_at {
        Some(s) => replied_to(sender, chat) is Some && s@ == stamp,
        None => replied_to(sender, chat) is None,
    }
    &&& match u.first_reply_minutes {
        Some(n) => replied_to(sender, chat) matches Some(t) && n == time::minutes_between(now, t),
        None => replied_to(sender, chat) is None,
    }
}

/// What a message of `sender` with this text changes on its thread.
pub fn thread_update(sender: &str, body: &str, chat: &serde_json::Value, now: Timestamp) -> (r:
    ThreadUpdate)
    requires
        now.of_clock(),
        encode_utf8(body@).len() > 100 ==> is_char_boundary(encode_utf8(body@), 100),
        message_count(json_of(*chat)) < i64::MAX,
        json::int_at_or(json_of(*chat), unread_field(sender@, json_of(*chat)), 0) < i64::MAX,
    ensures
        updates_thread(r, sender@, body@, json_of(*chat), now),
        time::in_common_years(now) ==> time::rfc3339_instant(r.updated_at@) == Some(now),
{
    let from_buyer = is_buyer(sender, chat);
    let key = if from_buyer {
        fields::SELLER_UNREAD_COUNT
    } else {
        fields::BUYER_UNREAD_COUNT
    };
    let unread: i64 = json::int_field_or(chat, key, 0);
    let count: i64 = json::int_field_or(chat, fields::MESSAGE_COUNT, 0);
    let stamp = time::to_rfc3339(now);
    let mut first_buyer_message_at: Option<String> = None;
    let mut first_seller_reply_at: Option<String> = None;
    let mut first_reply_minutes: Option<i64> = None;
    if from_buyer && json::get(chat, fields::FIRST_BUYER_MESSAGE_AT).is_none() {
        first_buyer_message_at = Some(stamp.clone());
    } else if is_seller(sender, chat) && json::get(chat, fields::FIRST_SELLER_REPLY_AT).is_none() {
        if let Some(t) = read_instant(chat, fields::FIRST_BUYER_MESSAGE_AT) {
            first_seller_reply_at = Some(stamp.clone());
            first_reply_minutes = Some(time::elapsed_minutes(now, t));
        }
    }
    ThreadUpdate {
        last_message: preview(body),
        last_message_text: body.to_owned(),
        last_message_at: stamp.clone(),
        updated_at: stamp,
        message_count: count + 1,
        for_seller: from_buyer,
        unread_count: unread + 1,
        first_buyer_message_at,
        first_seller_reply_at,
        first_reply_minutes,
    }
}

/// The preview of the text ends with a character, and the counts of the thread
/// can be raised.
pub open spec fn update_fits(sender: Seq<char>, body: Seq<char>, chat: Json) -> bool {
    &&& encode_utf8(body).len() > 100 ==> is_char_boundary(encode_utf8(body), 100)
    &&& message_count(chat) < i64::MAX
    &&& json::int_at_or(chat, unread_field(sender, chat), 0) < i64::MAX
}

/// What a message changes on its thread; nothing where its preview would end
/// inside a character or a count cannot be raised.
pub fn checked_thread_update(
    sender: &str,
    body: &str,
    chat: &serde_json::Value,
    now: Timestamp,
) -> (r: Option<ThreadUpdate>)
    requires
        now.of_clock(),
    ensures
        match r {
            Some(u) => update_fits(sender@, body@, json_of(*chat)) && updates_thread(
                u,
                sender@,
                body@,
                json_of(*chat),
                now,
            ),
            None => !update_fits(sender@, body@, json_of(*chat)),
        },
{
    if text::byte_len(body) > 100 && !body.is_char_boundary(100) {
        return None;
    }
    let key = if is_buyer(sender, chat) {
        fields::SELLER_UNREAD_COUNT
    } else {
        fields::BUYER_UNREAD_COUNT
    };
    if json::int_field_or(chat, fields::MESSAGE_COUNT, 0) == i64::MAX || json::int_field_or(
        chat,
        key,
        0,
    ) == i64::MAX {
        return None;
    }
    Some(thread_update(sender, body, chat, now))
}

/// The title and the body of the notice that the other side gets.
pub fn message_notice(name: &str, body: &str) -> (r: (String, String))
    ensures
        r.0@ == "Message from "@ + name@,
        r.1@ == if body@.len() == 0 {
            "Sent an image"@
        } else {
            body@
        },
{
    let title = text::join2("Message from ", name);
    if body.is_empty() {
        (title, "Sent an image".to_owned())
    } else {
        (title, body.to_owned())
    }
}

/// The side that a message of `sender` goes to.
pub open spec fn other_side(sender: Seq<char>, chat: Json) -> Seq<char> {
    if sender == buyer_of(chat) {
        seller_of(chat)
    } else {
        buyer_of(chat)
    }
}

/// The side that a message of `sender` goes to.
pub fn recipient<'a>(sender: &str, chat: &'a serde_json::Value) -> (r: &'a str)
    ensures
        r@ == other_side(sender@, json_of(*chat)),
{
    if is_buyer(sender, chat) {
        json::text_field_or_empty(chat, fields::SELLER_ID)
    } else {
        json::text_field_or_empty(chat, fields::BUYER_ID)
    }
}

// ------------------------------------------------------------- opening a chat

/// Why a chat is not opened on its request alone.
pub open spec fn opening_refusal(auth: AuthContext, req: GetOrCreateChatRequest) -> Option<Fault> {
    if !auth.authenticated {
        Some(Fault::Auth("Authentication required."@))
    } else if asked_product(req).len() == 0 {
        Some(Fault::Validation("productId is required."@))
    } else {
        None
    }
}

/// The product that a request speaks of, trimmed.
pub open spec fn asked_product(req: GetOrCreateChatRequest) -> Seq<char> {
    match req.product_id {
        Some(s) => text::trimmed(s@),
        None => Seq::empty(),
    }
}

/// The product that a chat is asked for.
pub fn requested_product<'a>(auth: &AuthContext, req: &'a GetOrCreateChatRequest) -> (r: Result<
    &'a str,
    Error,
>)
    ensures
        match r {
            Ok(p) => opening_refusal(*auth, *req) is None && p@ == asked_product(*req),
            Err(e) => opening_refusal(*auth, *req) == Some(e@),
        },
{
    if !auth.authenticated {
        return Err(auth_error("Authentication required."));
    }
    if let Some(s) = &req.product_id {
        let p = text::trim(s.as_str());
        if !p.is_empty() {
            return Ok(p);
        }
    }
    Err(validation("productId is required."))
}

/// Checks that the buyer who opens a chat is premium.
pub fn check_buyer_premium(premium: bool) -> (r: Result<(), Error>)
    ensures
        match r {
            Ok(()) => premium,
            Err(e) => !premium && e@ == Fault::Forbidden(
                "Premium subscription required to chat with sellers."@,
            ),
        },
{
    if premium {
        Ok(())
    } else {
        Err(forbidden("Premium subscription required to chat with sellers."))
    }
}

/// Why no chat is opened about a product.
pub open spec fn product_refusal(product: Json, buyer: Seq<char>) -> Option<Fault> {
    if product is Null {
        Some(Fault::NotFound("Product not found."@))
    } else if json::text_at(product, fields::LIFECYCLE_STATUS@) != Some("ACTIVE"@) {
        Some(Fault::NotFound("Product is no longer active."@))
    } else if seller_of(product) == buyer {
        Some(Fault::Forbidden("You cannot chat with yourself."@))
    } else {
        None
    }
}

/// Checks the product that a chat is asked for.
pub fn check_chat_product(product: &serde_json::Value, buyer: &str) -> (r: Result<(), Error>)
    ensures
        match r {
            Ok(()) => product_refusal(json_of(*product), buyer@) is None,
            Err(e) => product_refusal(json_of(*product), buyer@) == Some(e@),
        },
{
    if json::is_null(product) {
        return Err(not_found("Product not found."));
    }
    let active = match json::text_field(product, fields::LIFECYCLE_STATUS) {
        Some(s) => text::same(s, "ACTIVE"),
        None => false,
    };
    if !active {
        return Err(not_found("Product is no longer active."));
    }
    if is_seller(buyer, product) {
        return Err(forbidden("You cannot chat with yourself."));
    }
    Ok(())
}

/// The order holds the product.
pub open spec fn holds_product(order: Json, product_id: Seq<char>) -> bool {
    json::items_at(order, fields::PRODUCT_IDS@).contains(Json::Str(product_id))
}

/// Whether the order holds the product.
pub fn order_holds_product(order: &serde_json::Value, product_id: &str) -> (r: bool)
    ensures
        r == holds_product(json_of(*order), product_id@),
{
    let ids = match json::list_field(order, fields::PRODUCT_IDS) {
        Some(v) => v,
        None => return false,
    };
    let ghost listed = json::items_at(json_of(*order), fields::PRODUCT_IDS@);
    let mut i: usize = 0;
    while i < ids.len()
        invariant
            i <= ids@.len(),
            listed == jsons(ids@),
            listed == json::items_at(json_of(*order), fields::PRODUCT_IDS@),
            forall|j: int| 0 <= j < i ==> listed[j] != Json::Str(product_id@),
        decreases ids@.len() - i,
    {
        if let Some(s) = json::as_str(&ids[i]) {
            if text::same(s, product_id) {
                assert(listed[i as int] == Json::Str(product_id@));
                return true;
            }
        }
        i = i + 1;
    }
    false
}

/// One of the orders holds the product.
pub open spec fn has_eligible_order(orders: Seq<Json>, product_id: Seq<char>) -> bool {
    exists|i: int| 0 <= i < orders.len() && holds_product(#[trigger] orders[i], product_id)
}

/// Whether one of a buyer's delivered or disputed orders holds the product.
pub fn buyer_has_chat_eligible_order(orders: &Vec<serde_json::Value>, product_id: &str) -> (r: bool)
    ensures
        r == has_eligible_order(jsons(orders@), product_id@),
{
    let mut i: usize = 0;
    while i < orders.len()
        invariant
            i <= orders@.len(),
            forall|j: int|
                0 <= j < i ==> !holds_product(#[trigger] jsons(orders@)[j], product_id@),
        decreases orders@.len() - i,
    {
        if order_holds_product(&orders[i], product_id) {
            assert(holds_product(jsons(orders@)[i as int], product_id@));
            return true;
        }
        i = i + 1;
    }
    false
}

/// Checks that the buyer has an order that entitles them to chat.
pub fn check_eligible_order(orders: &Vec<serde_json::Value>, product_id: &str) -> (r: Result<
    (),
    Error,
>)
    ensures
        match r {
            Ok(()) => has_eligible_order(jsons(orders@), product_id@),
            Err(e) => !has_eligible_order(jsons(orders@), product_id@) && e@ == Fault::Validation(
                "You must have a delivered order for this product before starting a chat with the seller."@,
            ),
        },
{
    if buyer_has_chat_eligible_order(orders, product_id) {
        Ok(())
    } else {
        Err(
            validation(
                "You must have a delivered order for this product before starting a chat with the seller.",
            ),
        )
    }
}

/// A thread as it is first stored.
pub struct NewChat {
    pub chat_id: String,
    pub product_id: String,
    pub buyer_id: String,
    pub seller_id: String,
    pub product_title: String,
    pub product_image_url: String,
    pub buyer_unread_count: i64,
    pub seller_unread_count: i64,
    pub message_count: i64,
    pub created_at: String,
    pub updated_at: String,
}

/// The first image of a product, empty where it has none.
pub open spec fn first_image(product: Json) -> Seq<char> {
    let urls = json::items_at(product, fields::IMAGE_URLS@);
    if urls.len() > 0 {
        match json::as_text(urls[0]) {
            Some(s) => s,
            None => Seq::empty(),
        }
    } else {
        Seq::empty()
    }
}

/// The first image of a product.
pub fn first_image_of(product: &serde_json::Value) -> (r: String)
    ensures
        r@ == first_image(json_of(*product)),
{
    if let Some(urls) = json::list_field(product, fields::IMAGE_URLS) {
        if urls.len() > 0 {
            if let Some(s) = json::as_str(&urls[0]) {
                return s.to_owned();
            }
        }
    }
    String::new()
}

/// `r` answers with the thread of a buyer about a product, with the document to
/// store at `stamp` where there is none.
pub open spec fn opens(
    r: (GetOrCreateChatResponse, Option<NewChat>),
    product: Json,
    product_id: Seq<char>,
    buyer: Seq<char>,
    existing: Json,
    stamp: Seq<char>,
) -> bool {
    &&& r.0.chat_id@ == product_id + "_"@ + buyer
    &&& r.0.is_new == (existing is Null)
    &&& r.1 is Some == r.0.is_new
    &&& r.1 matches Some(c) ==> {
        &&& c.chat_id@ == r.0.chat_id@
        &&& c.product_id@ == product_id
        &&& c.buyer_id@ == buyer
        &&& c.seller_id@ == seller_of(product)
        &&& c.product_title@ == json::text_at_or(product, fields::NAME@, "Product"@)
        &&& c.product_image_url@ == first_image(product)
        &&& c.buyer_unread_count == 0
        &&& c.seller_unread_count == 0
        &&& c.message_count == 0
        &&& c.created_at@ == stamp
        &&& c.updated_at@ == stamp
    }
}

/// Answers with the thread between the buyer and the product's seller, and
/// with the document to store where `existing`, `null` for none, is not it.
pub fn open_chat(
    product: &serde_json::Value,
    product_id: &str,
    buyer: &str,
    existing: &serde_json::Value,
    now: Timestamp,
) -> (r: (GetOrCreateChatResponse, Option<NewChat>))
    requires
        now.of_clock(),
    ensures
        opens(
            r,
            json_of(*product),
            product_id@,
            buyer@,
            json_of(*existing),
            time::rfc3339_text(now),
        ),
{
    let chat_id = product_scoped_chat_id(product_id, buyer);
    if !json::is_null(existing) {
        return (GetOrCreateChatResponse { chat_id, is_new: false }, None);
    }
    let stamp = time::to_rfc3339(now);
    let record = NewChat {
        chat_id: chat_id.clone(),
        product_id: product_id.to_owned(),
        buyer_id: buyer.to_owned(),
        seller_id: json::text_field_or_empty(product, fields::SELLER_ID).to_owned(),
        product_title: json::text_field_or(product, fields::NAME, "Product").to_owned(),
        product_image_url: first_image_of(product),
        buyer_unread_count: 0,
        seller_unread_count: 0,
        message_count: 0,
        created_at: stamp.clone(),
        updated_at: stamp,
    };
    (GetOrCreateChatResponse { chat_id, is_new: true }, Some(record))
}

// ------------------------------------------- reading, deleting and reporting

/// Checks a request to mark a thread read.
pub fn check_mark_read(auth: &AuthContext, req: &MarkReadRequest) -> (r: Result<(), Error>)
    ensures
        match r {
            Ok(()) => auth.authenticated && req.chat_id@.len() > 0,
            Err(e) => if !auth.authenticated {
                e@ == Fault::Auth("Authentication required."@)
            } else {
                req.chat_id@.len() == 0 && e@ == Fault::Validation("chatId is required."@)
            },
        },
{
    if !auth.authenticated {
        return Err(auth_error("Authentication required."));
    }
    if req.chat_id.as_str().is_empty() {
        return Err(validation("chatId is required."));
    }
    Ok(())
}

/// Checks that a user takes part in a thread.
pub fn check_participant(uid: &str, chat: &serde_json::Value) -> (r: Result<(), Error>)
    ensures
        match r {
            Ok(()) => participates(uid@, json_of(*chat)),
            Err(e) => !participates(uid@, json_of(*chat)) && e@ == Fault::Forbidden(
                "Access denied."@,
            ),
        },
{
    if is_buyer(uid, chat) || is_seller(uid, chat) {
        Ok(())
    } else {
        Err(forbidden("Access denied."))
    }
}

/// The message is one of the thread that somebody other than `uid` sent and
/// that is not read yet.
pub open spec fn is_unread_by(message: Json, chat_id: Seq<char>, uid: Seq<char>) -> bool {
    &&& json::text_at(message, fields::CHAT_ID@) == Some(chat_id)
    &&& json::text_at(message, fields::SENDER_ID@) matches Some(s) && s != uid
    &&& json::flag_at(message, fields::READ@) == Some(false)
}

/// Whether the message is one of the thread that somebody other than `uid`
/// sent and that is not read yet.
pub fn unread_by(message: &serde_json::Value, chat_id: &str, uid: &str) -> (r: bool)
    ensures
        r == is_unread_by(json_of(*message), chat_id@, uid@),
{
    let in_chat = match json::text_field(message, fields::CHAT_ID) {
        Some(s) => text::same(s, chat_id),
        None => false,
    };
    let from_other = match json::text_field(message, fields::SENDER_ID) {
        Some(s) => !text::same(s, uid),
        None => false,
    };
    let unread = match json::flag_field(message, fields::READ) {
        Some(b) => !b,
        None => false,
    };
    in_chat && from_other && unread
}

/// The positions of the messages of the thread that `uid` has yet to read, in
/// order.
pub open spec fn unread_positions(
    messages: Seq<Json>,
    chat_id: Seq<char>,
    uid: Seq<char>,
) -> Seq<int>
    decreases messages.len(),
{
    if messages.len() == 0 {
        Seq::empty()
    } else {
        let before = unread_positions(messages.drop_last(), chat_id, uid);
        if is_unread_by(messages.last(), chat_id, uid) {
            before.push(messages.len() - 1)
        } else {
            before
        }
    }
}

/// The messages that reading a thread marks.
pub struct ReadMarks {
    /// Their positions.
    pub positions: Vec<usize>,
    /// What each is marked with at `read`.
    pub read: bool,
}

/// The messages that reading a thread marks: all that `uid` has yet to read.
pub fn read_marks(messages: &Vec<serde_json::Value>, chat_id: &str, uid: &str) -> (r: ReadMarks)
    ensures
        as_ints(r.positions@) == unread_positions(jsons(messages@), chat_id@, uid@),
        r.read,
{
    let ghost all = jsons(messages@);
    let mut positions: Vec<usize> = Vec::new();
    let mut i: usize = 0;
    assert(as_ints(positions@) =~= unread_positions(all.take(0), chat_id@, uid@));
    while i < messages.len()
        invariant
            i <= messages@.len(),
            all == jsons(messages@),
            as_ints(positions@) == unread_positions(all.take(i as int), chat_id@, uid@),
        decreases messages@.len() - i,
    {
        proof {
            assert(all.take(i + 1).drop_last() =~= all.take(i as int));
            assert(all.take(i + 1).last() == json_of(messages@[i as int]));
        }
        if unread_by(&messages[i], chat_id, uid) {
            let ghost before = as_ints(positions@);
            positions.push(i);
            assert(as_ints(positions@) =~= before.push(i as int));
        }
        i = i + 1;
    }
    assert(all.take(i as int) =~= all);
    ReadMarks { positions, read: true }
}

/// The message, marked as read.
pub open spec fn marked_read(message: Json) -> Json {
    match message {
        Json::Object(m) => Json::Object(m.insert(fields::READ@, Json::Bool(true))),
        _ => message,
    }
}

/// The messages after `uid` has read the thread.
pub open spec fn after_reading(
    messages: Seq<Json>,
    chat_id: Seq<char>,
    uid: Seq<char>,
) -> Seq<Json> {
    Seq::new(
        messages.len(),
        |i: int|
            if is_unread_by(messages[i], chat_id, uid) {
                marked_read(messages[i])
            } else {
                messages[i]
            },
    )
}

/// The unread count of the side that `uid` is on.
pub open spec fn own_unread_field(uid: Seq<char>, chat: Json) -> Seq<char> {
    if uid == buyer_of(chat) {
        fields::BUYER_UNREAD_COUNT@
    } else {
        fields::SELLER_UNREAD_COUNT@
    }
}

/// The answer to a request that marked `count` messages read, and the unread
/// count to reset, where there was anything to mark.
pub fn mark_read_outcome(uid: &str, chat: &serde_json::Value, count: i64) -> (r: (
    MarkReadResponse,
    Option<&'static str>,
))
    ensures
        r.0.success,
        r.0.count == count,
        match r.1 {
            Some(key) => count > 0 && key@ == own_unread_field(uid@, json_of(*chat)),
            None => count <= 0,
        },
{
    let answer = MarkReadResponse { success: true, count };
    if count > 0 {
        if is_buyer(uid, chat) {
            (answer, Some(fields::BUYER_UNREAD_COUNT))
        } else {
            (answer, Some(fields::SELLER_UNREAD_COUNT))
        }
    } else {
        (answer, None)
    }
}

/// Why a request about one message is refused on its own.
pub open spec fn message_request_refusal(
    auth: AuthContext,
    chat_id: Seq<char>,
    message_id: Seq<char>,
) -> Option<Fault> {
    if !auth.authenticated {
        Some(Fault::Auth("Authentication required."@))
    } else if chat_id.len() == 0 || message_id.len() == 0 {
        Some(Fault::Validation("chatId and messageId required."@))
    } else {
        None
    }
}

/// Checks a request about one message.
pub fn check_message_request(auth: &AuthContext, chat_id: &str, message_id: &str) -> (r: Result<
    (),
    Error,
>)
    ensures
        match r {
            Ok(()) => message_request_refusal(*auth, chat_id@, message_id@) is None,
            Err(e) => message_request_refusal(*auth, chat_id@, message_id@) == Some(e@),
        },
{
    if !auth.authenticated {
        return Err(auth_error("Authentication required."));
    }
    if chat_id.is_empty() || message_id.is_empty() {
        return Err(validation("chatId and messageId required."));
    }
    Ok(())
}

/// What deleting a message comes to.
#[derive(Debug, Clone, Copy, PartialEq, Eq)]
pub enum Deletion {
    /// The message was deleted before: nothing is left to do.
    AlreadyDone,
    /// The message is marked deleted and loses its text and its images.
    Erase,
}

/// The message was deleted before.
pub open spec fn is_deleted(message: Json) -> bool {
    json::flag_at_or(message, fields::DELETED@, false)
}

/// The user may delete the message.
pub open spec fn may_delete(auth: AuthContext, message: Json) -> bool {
    json::text_or_empty(message, fields::SENDER_ID@) == auth.user_id@ || auth.holds("admin"@)
}

/// What the deletion of a message, `null` where it does not exist, comes to.
pub open spec fn deletion(auth: AuthContext, message: Json) -> Result<Deletion, Fault> {
    if message is Null {
        Err(Fault::NotFound("Message not found."@))
    } else if is_deleted(message) {
        Ok(Deletion::AlreadyDone)
    } else if !may_delete(auth, message) {
        Err(Fault::Forbidden("Only the sender or an admin can delete a message."@))
    } else {
        Ok(Deletion::Erase)
    }
}

/// Decides on the deletion of a message, `null` where it does not exist.
pub fn decide_deletion(auth: &AuthContext, message: &serde_json::Value) -> (r: Result<
    Deletion,
    Error,
>)
    ensures
        match r {
            Ok(d) => deletion(*auth, json_of(*message)) == Ok::<Deletion, Fault>(d),
            Err(e) => deletion(*auth, json_of(*message)) == Err::<Deletion, Fault>(e@),
        },
{
    if json::is_null(message) {
        return Err(not_found("Message not found."));
    }
    if json::flag_field_or(message, fields::DELETED, false) {
        return Ok(Deletion::AlreadyDone);
    }
    let sender = json::text_field_or_empty(message, fields::SENDER_ID);
    if !text::same(sender, auth.user_id.as_str()) && !auth.has_role("admin") {
        return Err(forbidden("Only the sender or an admin can delete a message."));
    }
    Ok(Deletion::Erase)
}

/// What erasing a message writes on it; the rest of the message stays.
pub struct Erasure {
    pub deleted: bool,
    pub message_text: String,
    pub image_urls: Vec<String>,
    pub updated_at: String,
}

/// The change that erases a message at `now`: it is marked deleted and loses
/// its text and its images.
pub fn erasure(now: Timestamp) -> (r: Erasure)
    requires
        now.of_clock(),
    ensures
        r.deleted,
        r.message_text@.len() == 0,
        r.image_urls@.len() == 0,
        r.updated_at@ == time::rfc3339_text(now),
{
    Erasure {
        deleted: true,
        message_text: String::new(),
        image_urls: Vec::new(),
        updated_at: time::to_rfc3339(now),
    }
}

/// The message after the change `e`.
pub open spec fn erased(message: Json, e: Erasure) -> Json {
    let urls = Seq::new(e.image_urls@.len(), |i: int| Json::Str(e.image_urls@[i]@));
    match message {
        Json::Object(m) => Json::Object(
            m.insert(fields::DELETED@, Json::Bool(e.deleted)).insert(
                fields::MESSAGE_TEXT@,
                Json::Str(e.message_text@),
            ).insert(fields::IMAGE_URLS@, Json::Array(urls)).insert(
                fields::UPDATED_AT@,
                Json::Str(e.updated_at@),
            ),
        ),
        _ => message,
    }
}

/// Why a report on a thread is refused.
pub open spec fn report_refusal(uid: Seq<char>, chat: Json) -> Option<Fault> {
    if chat is Null {
        Some(Fault::NotFound("Chat thread not found."@))
    } else if !participates(uid, chat) {
        Some(Fault::Forbidden("You are not a participant in this chat."@))
    } else {
        None
    }
}

/// Checks that a user may report on a thread, `null` where it does not exist.
pub fn check_report(uid: &str, chat: &serde_json::Value) -> (r: Result<(), Error>)
    ensures
        match r {
            Ok(()) => report_refusal(uid@, json_of(*chat)) is None,
            Err(e) => report_refusal(uid@, json_of(*chat)) == Some(e@),
        },
{
    if json::is_null(chat) {
        return Err(not_found("Chat thread not found."));
    }
    if !is_buyer(uid, chat) && !is_seller(uid, chat) {
        return Err(forbidden("You are not a participant in this chat."));
    }
    Ok(())
}

/// A report as it is stored.
pub struct MessageReport {
    pub report_id: String,
    pub chat_id: String,
    pub message_id: String,
    pub reporter_id: String,
    pub reason: String,
    pub message_text: String,
    pub sender_id: String,
    pub status: String,
    pub created_at: String,
}

/// `m` is the report `report_id` of `uid` on a message, made at `stamp`.
pub open spec fn reports(
    m: MessageReport,
    report_id: String,
    req: ReportMessageRequest,
    uid: Seq<char>,
    message: Json,
    stamp: Seq<char>,
) -> bool {
    &&& m.report_id == report_id
    &&& m.chat_id == req.chat_id
    &&& m.message_id == req.message_id
    &&& m.reporter_id@ == uid
    &&& m.reason@ == match req.reason {
        Some(s) => s@,
        None => "Inappropriate content"@,
    }
    &&& m.message_text@ == json::text_or_empty(message, fields::MESSAGE_TEXT@)
    &&& m.sender_id@ == json::text_or_empty(message, fields::SENDER_ID@)
    &&& m.status@ == "pending"@
    &&& m.created_at@ == stamp
}

/// The document of a report on a message, `null` where it does not exist.
pub fn message_report(
    report_id: String,
    req: ReportMessageRequest,
    uid: &str,
    message: &serde_json::Value,
    now: Timestamp,
) -> (r: Result<MessageReport, Error>)
    requires
        now.of_clock(),
    ensures
        match r {
            Ok(m) => !(json_of(*message) is Null) && reports(
                m,
                report_id,
                req,
                uid@,
                json_of(*message),
                time::rfc3339_text(now),
            ),
            Err(e) => json_of(*message) is Null && e@ == Fault::NotFound("Message not found."@),
        },
{
    if json::is_null(message) {
        return Err(not_found("Message not found."));
    }
    let reason = match req.reason {
        Some(s) => s,
        None => "Inappropriate content".to_owned(),
    };
    Ok(
        MessageReport {
            report_id,
            chat_id: req.chat_id,
            message_id: req.message_id,
            reporter_id: uid.to_owned(),
            reason,
            message_text: json::text_field_or_empty(message, fields::MESSAGE_TEXT).to_owned(),
            sender_id: json::text_field_or_empty(message, fields::SENDER_ID).to_owned(),
            status: "pending".to_owned(),
            created_at: time::to_rfc3339(now),
        },
    )
}

// ----------------------------------------------------------------------- laws

/// A thread takes no more than its limit: one that is full takes no message of
/// anyone, and one that takes a message holds no more than the limit after it.
pub proof fn law_thread_capacity(
    sender: Seq<char>,
    body: Seq<char>,
    chat: Json,
    now: Timestamp,
)
    ensures
        message_count(chat) >= MAX_MESSAGES_PER_THREAD ==> thread_refusal(sender, body, chat, now)
            is Some,
        thread_refusal(sender, body, chat, now) is None ==> message_count(chat) + 1
            <= MAX_MESSAGES_PER_THREAD,
{
}

/// Only the two participants of a thread are served: anyone else is refused
/// when they send, and when they report.
pub proof fn law_outsiders_refused(uid: Seq<char>, body: Seq<char>, chat: Json, now: Timestamp)
    requires
        !participates(uid, chat),
    ensures
        thread_refusal(uid, body, chat, now) == Some(Fault::Forbidden("Access denied."@)),
        report_refusal(uid, chat) is Some,
{
}

/// A message that was stored on its thread at `stored` is refused when its
/// text is sent again within five seconds, by either participant.
pub proof fn law_repeat_refused(
    sender: Seq<char>,
    body: Seq<char>,
    chat: Json,
    stored: Timestamp,
    now: Timestamp,
)
    requires
        participates(sender, chat),
        body.len() > 0,
        json::text_at(chat, fields::LAST_MESSAGE_TEXT@) == Some(body),
        stored_instant(chat, fields::UPDATED_AT@) == Some(stored),
        time::seconds_between(now, stored) < 5,
    ensures
        thread_refusal(sender, body, chat, now) == Some(
            Fault::Validation("Message already sent."@),
        ),
{
}

/// A deleted message stays deleted for everyone: deleting it again succeeds
/// and changes nothing, whoever asks.
pub proof fn law_deletion_is_final(auth: AuthContext, message: Json)
    requires
        is_deleted(message),
    ensures
        deletion(auth, message) == Ok::<Deletion, Fault>(Deletion::AlreadyDone),
{
}

/// A message that was erased is deleted, without text and images; its sender
/// and its thread stay. Deleting it again, whoever asks, changes nothing.
pub proof fn law_erased_message_is_deleted(auth: AuthContext, message: Json, e: Erasure)
    requires
        message is Object,
        e.deleted,
        e.message_text@.len() == 0,
        e.image_urls@.len() == 0,
    ensures
        is_deleted(erased(message, e)),
        json::text_at(erased(message, e), fields::MESSAGE_TEXT@) == Some(Seq::<char>::empty()),
        json::items_at(erased(message, e), fields::IMAGE_URLS@).len() == 0,
        json::member(erased(message, e), fields::SENDER_ID@) == json::member(
            message,
            fields::SENDER_ID@,
        ),
        json::member(erased(message, e), fields::CHAT_ID@) == json::member(
            message,
            fields::CHAT_ID@,
        ),
        deletion(auth, erased(message, e)) == Ok::<Deletion, Fault>(Deletion::AlreadyDone),
{
    reveal_strlit("deleted");
    reveal_strlit("messageText");
    reveal_strlit("imageUrls");
    reveal_strlit("updatedAt");
    reveal_strlit("senderId");
    reveal_strlit("chatId");
    assert(fields::DELETED@.len() == 7 && fields::MESSAGE_TEXT@.len() == 11);
    assert(fields::IMAGE_URLS@.len() == 9 && fields::UPDATED_AT@.len() == 9);
    assert(fields::SENDER_ID@.len() == 8 && fields::CHAT_ID@.len() == 6);
    assert(fields::IMAGE_URLS@[0] != fields::UPDATED_AT@[0]);
    assert(e.message_text@ =~= Seq::<char>::empty());
}

/// Reading a thread marks exactly the messages that the reader had yet to
/// read: reading it again finds none, and the reader's own messages keep their
/// mark.
pub proof fn law_read_once(messages: Seq<Json>, chat_id: Seq<char>, uid: Seq<char>)
    ensures
        unread_positions(after_reading(messages, chat_id, uid), chat_id, uid).len() == 0,
        forall|i: int|
            0 <= i < messages.len() && is_unread_by(#[trigger] messages[i], chat_id, uid)
                ==> json::flag_at(after_reading(messages, chat_id, uid)[i], fields::READ@) == Some(
                true,
            ),
        forall|i: int|
            0 <= i < messages.len() && !is_unread_by(#[trigger] messages[i], chat_id, uid)
                ==> after_reading(messages, chat_id, uid)[i] == messages[i],
        forall|i: int|
            0 <= i < messages.len() && json::text_at(#[trigger] messages[i], fields::SENDER_ID@)
                == Some(uid) ==> after_reading(messages, chat_id, uid)[i] == messages[i],
{
    let after = after_reading(messages, chat_id, uid);
    assert forall|i: int| 0 <= i < after.len() implies !is_unread_by(
        #[trigger] after[i],
        chat_id,
        uid,
    ) by {
        if is_unread_by(messages[i], chat_id, uid) {
            assert(json::flag_at(after[i], fields::READ@) == Some(true));
        }
    }
    lemma_none_unread(after, chat_id, uid);
}

/// The positions of unread messages are those of the unread messages, each
/// once.
pub proof fn law_unread_positions(messages: Seq<Json>, chat_id: Seq<char>, uid: Seq<char>)
    ensures
        unread_positions(messages, chat_id, uid).no_duplicates(),
        forall|i: int| #[trigger]
            unread_positions(messages, chat_id, uid).contains(i) <==> 0 <= i < messages.len()
                && is_unread_by(messages[i], chat_id, uid),
    decreases messages.len(),
{
    if messages.len() > 0 {
        let init = messages.drop_last();
        let before = unread_positions(init, chat_id, uid);
        let after = unread_positions(messages, chat_id, uid);
        law_unread_positions(init, chat_id, uid);
        assert(!before.contains(messages.len() - 1));
        assert forall|i: int| #[trigger] after.contains(i) <==> 0 <= i < messages.len()
            && is_unread_by(messages[i], chat_id, uid) by {
            assert(before.contains(i) <==> 0 <= i < init.len() && is_unread_by(
                init[i],
                chat_id,
                uid,
            ));
            if before.contains(i) {
                let j = choose|j: int| 0 <= j < before.len() && before[j] == i;
                assert(after[j] == i);
            }
            if i == messages.len() - 1 && is_unread_by(messages[i], chat_id, uid) {
                assert(after[before.len() as int] == i);
            }
        }
    }
}

proof fn lemma_none_unread(messages: Seq<Json>, chat_id: Seq<char>, uid: Seq<char>)
    requires
        forall|i: int|
            0 <= i < messages.len() ==> !is_unread_by(#[trigger] messages[i], chat_id, uid),
    ensures
        unread_positions(messages, chat_id, uid).len() == 0,
    decreases messages.len(),
{
    if messages.len() > 0 {
        let init = messages.drop_last();
        assert forall|i: int| 0 <= i < init.len() implies !is_unread_by(
            #[trigger] init[i],
            chat_id,
            uid,
        ) by {
            assert(init[i] == messages[i]);
        }
        lemma_none_unread(init, chat_id, uid);
        assert(messages[messages.len() - 1] == messages.last());
    }
}

/// A message that is not deleted yet can be deleted by its sender and by an
/// administrator, and by nobody else.
pub proof fn law_deletion_rights(auth: AuthContext, message: Json)
    requires
        !(message is Null),
        !is_deleted(message),
    ensures
        deletion(auth, message) == Ok::<Deletion, Fault>(Deletion::Erase) <==> (
        json::text_or_empty(message, fields::SENDER_ID@) == auth.user_id@ || auth.holds("admin"@)),
{
}

/// Nobody who is not signed in gets anything done.
pub proof fn law_sign_in_required(
    auth: AuthContext,
    send: SendMessageRequest,
    open: GetOrCreateChatRequest,
    clean: Seq<char>,
    chat_id: Seq<char>,
    message_id: Seq<char>,
)
    requires
        !auth.authenticated,
    ensures
        message_refusal(auth, send, clean) == Some(Fault::Auth("Authentication required."@)),
        opening_refusal(auth, open) == Some(Fault::Auth("Authentication required."@)),
        message_request_refusal(auth, chat_id, message_id) == Some(
            Fault::Auth("Authentication required."@),
        ),
{
}

/// A message is taken on its request exactly where the sender is signed in, it
/// names a thread, it has a text or an image, no more than five images, all
/// with HTTPS and on the content network, and a sanitized text of at most 2000
/// bytes that is not empty unless the text was blank. It may have both a text
/// and images, and either alone.
pub proof fn law_proper_message_taken(
    auth: AuthContext,
    req: SendMessageRequest,
    urls: Seq<String>,
    clean: Seq<char>,
)
    requires
        req.image_urls matches Some(v) ==> urls == v@,
        req.image_urls is None ==> urls.len() == 0,
    ensures
        ({
            let text_given = req.message_text matches Some(s) && s@.len() > 0;
            let blank = req.message_text matches Some(s) ==> text::is_blank(s@);
            message_refusal(auth, req, clean) is None <==> {
                &&& auth.authenticated
                &&& req.chat_id@.len() > 0
                &&& text_given || urls.len() > 0
                &&& urls.len() <= 5
                &&& forall|i: int|
                    0 <= i < urls.len() ==> text::occurs_at(
                        (#[trigger] urls[i])@,
                        "https://"@,
                        0,
                    ) && (text::occurs(urls[i]@, "storage.googleapis.com"@) || text::occurs(
                        urls[i]@,
                        "cdn"@,
                    ))
                &&& clean.len() > 0 || blank
                &&& encode_utf8(clean).len() <= 2000
            }
        }),
{
    assert(images(req) =~= urls);
    lemma_images_taken(urls);
    assert(text::is_blank(Seq::<char>::empty()));
}

/// Images are taken exactly where there are no more than five, all with HTTPS
/// and on the content network.
proof fn lemma_images_taken(urls: Seq<String>)
    ensures
        image_refusal(urls) is None <==> urls.len() <= 5 && forall|i: int|
            0 <= i < urls.len() ==> text::occurs_at((#[trigger] urls[i])@, "https://"@, 0) && (
            text::occurs(urls[i]@, "storage.googleapis.com"@) || text::occurs(urls[i]@, "cdn"@)),
{
    if image_refusal(urls) is None {
        assert forall|i: int| 0 <= i < urls.len() implies text::occurs_at(
            (#[trigger] urls[i])@,
            "https://"@,
            0,
        ) && (text::occurs(urls[i]@, "storage.googleapis.com"@) || text::occurs(
            urls[i]@,
            "cdn"@,
        )) by {
            assert(is_https(urls[i]@));
            assert(is_on_cdn(urls[i]@));
        }
    }
    if urls.len() <= 5 && forall|i: int|
        0 <= i < urls.len() ==> text::occurs_at((#[trigger] urls[i])@, "https://"@, 0) && (
        text::occurs(urls[i]@, "storage.googleapis.com"@) || text::occurs(urls[i]@, "cdn"@)) {
        assert(forall|i: int| 0 <= i < urls.len() ==> is_https((#[trigger] urls[i])@));
        assert(forall|i: int| 0 <= i < urls.len() ==> is_on_cdn((#[trigger] urls[i])@));
    }
}

/// A thread takes a message exactly where its sender is its buyer or its
/// seller, the same text was not the last one within five seconds, and it
/// holds fewer than 10 000 messages.
pub proof fn law_thread_takes_message(
    sender: Seq<char>,
    body: Seq<char>,
    chat: Json,
    now: Timestamp,
)
    ensures
        thread_refusal(sender, body, chat, now) is None <==> {
            &&& sender == json::text_or_empty(chat, "buyerId"@) || sender == json::text_or_empty(
                chat,
                "sellerId"@,
            )
            &&& !(body.len() > 0 && json::text_at(chat, "lastMessageText"@) == Some(body) && (
            stored_instant(chat, "updatedAt"@) matches Some(t) && time::seconds_between(now, t)
                < 5))
            &&& json::int_at_or(chat, "messageCount"@, 0) < 10_000
        },
{
}

/// A stored message is counted once for its thread and once for the other
/// side, is the thread's last one, and leaves the instant at which it was
/// stored.
pub proof fn law_message_counts_for_the_other_side(
    u: ThreadUpdate,
    sender: Seq<char>,
    body: Seq<char>,
    chat: Json,
    now: Timestamp,
)
    requires
        updates_thread(u, sender, body, chat, now),
    ensures
        u.message_count == json::int_at_or(chat, "messageCount"@, 0) + 1,
        sender == json::text_or_empty(chat, "buyerId"@) ==> u.for_seller && u.unread_count
            == json::int_at_or(chat, "sellerUnreadCount"@, 0) + 1,
        sender != json::text_or_empty(chat, "buyerId"@) ==> !u.for_seller && u.unread_count
            == json::int_at_or(chat, "buyerUnreadCount"@, 0) + 1,
        u.last_message_text@ == body,
        encode_utf8(body).len() <= 100 ==> u.last_message@ == body,
        encode_utf8(body).len() > 100 ==> encode_utf8(u.last_message@) == encode_utf8(body).take(
            100,
        ),
        u.last_message_at@ == time::rfc3339_text(now),
        u.updated_at@ == time::rfc3339_text(now),
{
}

/// The buyer's first message is noted once, by the buyer alone. The seller's
/// first reply is noted once too, where the buyer's first message was, with
/// the whole minutes between them.
pub proof fn law_first_messages_noted_once(
    u: ThreadUpdate,
    sender: Seq<char>,
    body: Seq<char>,
    chat: Json,
    now: Timestamp,
)
    requires
        updates_thread(u, sender, body, chat, now),
    ensures
        ({
            let buyer = sender == json::text_or_empty(chat, "buyerId"@);
            let seller = sender == json::text_or_empty(chat, "sellerId"@);
            let opened = json::member(chat, "firstBuyerMessageAt"@) is Some;
            let replied = json::member(chat, "firstSellerReplyAt"@) is Some;
            let first = stored_instant(chat, "firstBuyerMessageAt"@);
            &&& u.first_buyer_message_at is Some <==> buyer && !opened
            &&& u.first_seller_reply_at is Some <==> seller && opened && !replied && first is Some
            &&& u.first_reply_minutes is Some <==> u.first_seller_reply_at is Some
            &&& u.first_reply_minutes matches Some(n) ==> n == time::quotient(
                time::seconds_between(now, first->0),
                60,
            )
            &&& u.first_buyer_message_at matches Some(s) ==> s@ == time::rfc3339_text(now)
            &&& u.first_seller_reply_at matches Some(s) ==> s@ == time::rfc3339_text(now)
        }),
{
}

/// A chat is asked for by whoever is signed in and names a product; it is opened
/// about a product that exists, is on sale and belongs to somebody else.
pub proof fn law_chat_is_opened_about(
    auth: AuthContext,
    req: GetOrCreateChatRequest,
    product: Json,
    buyer: Seq<char>,
)
    ensures
        opening_refusal(auth, req) is None <==> auth.authenticated && (req.product_id matches Some(
            s,
        ) && text::trimmed(s@).len() > 0),
        product_refusal(product, buyer) is None <==> {
            &&& !(product is Null)
            &&& json::text_at(product, "lifecycleStatus"@) == Some("ACTIVE"@)
            &&& json::text_or_empty(product, "sellerId"@) != buyer
        },
{
}

/// A buyer may open a chat about a product exactly where one of their orders
/// lists it.
pub proof fn law_eligible_by_an_order(orders: Seq<Json>, product_id: Seq<char>)
    ensures
        has_eligible_order(orders, product_id) <==> exists|i: int, k: int|
            0 <= i < orders.len() && 0 <= k < json::items_at(orders[i], "productIds"@).len()
                && json::as_text(#[trigger] json::items_at(orders[i], "productIds"@)[k]) == Some(
                product_id,
            ),
{
    if has_eligible_order(orders, product_id) {
        let i = choose|i: int|
            0 <= i < orders.len() && holds_product(#[trigger] orders[i], product_id);
        let listed = json::items_at(orders[i], "productIds"@);
        let k = choose|k: int| 0 <= k < listed.len() && listed[k] == Json::Str(product_id);
        assert(json::as_text(json::items_at(orders[i], "productIds"@)[k]) == Some(product_id));
    }
    if exists|i: int, k: int|
        0 <= i < orders.len() && 0 <= k < json::items_at(orders[i], "productIds"@).len()
            && json::as_text(#[trigger] json::items_at(orders[i], "productIds"@)[k]) == Some(
            product_id,
        ) {
        let (i, k) = choose|i: int, k: int|
            0 <= i < orders.len() && 0 <= k < json::items_at(orders[i], "productIds"@).len()
                && json::as_text(#[trigger] json::items_at(orders[i], "productIds"@)[k]) == Some(
                product_id,
            );
        assert(json::items_at(orders[i], "productIds"@)[k] == Json::Str(product_id));
        assert(holds_product(orders[i], product_id));
    }
}

/// A user is premium exactly while the text at the `status` of their
/// subscription is `active`, and nobody without a subscription is.
pub proof fn law_premium_by_active_subscription(subscription: Json)
    ensures
        premium(subscription) <==> json::text_at(subscription, "status"@) == Some("active"@),
        subscription is Null ==> !premium(subscription),
{
}

/// Requests about a message name the thread and the message, and a report is
/// taken from the thread's buyer and its seller.
pub proof fn law_message_requests_taken(
    auth: AuthContext,
    chat_id: Seq<char>,
    message_id: Seq<char>,
    uid: Seq<char>,
    chat: Json,
)
    ensures
        message_request_refusal(auth, chat_id, message_id) is None <==> auth.authenticated
            && chat_id.len() > 0 && message_id.len() > 0,
        report_refusal(uid, chat) is None <==> !(chat is Null) && (uid == json::text_or_empty(
            chat,
            "buyerId"@,
        ) || uid == json::text_or_empty(chat, "sellerId"@)),
{
}

/// A message is still to be read exactly by those who did not send it, in its
/// own thread, while it says that it is not read.
pub proof fn law_unread_means(message: Json, chat_id: Seq<char>, uid: Seq<char>)
    ensures
        is_unread_by(message, chat_id, uid) <==> {
            &&& json::text_at(message, "chatId"@) == Some(chat_id)
            &&& json::text_at(message, "senderId"@) is Some
            &&& json::text_at(message, "senderId"@) != Some(uid)
            &&& json::flag_at(message, "read"@) == Some(false)
        },
{
}

/// A stored message carries what was sent, under its sender's name, and is
/// still to be read by everyone in its thread but its sender.
pub proof fn law_stored_message_is_unread(
    r: StoredMessage,
    message: PendingMessage,
    sender: Json,
    stamp: Seq<char>,
    doc: Json,
    uid: Seq<char>,
)
    requires
        stores(r, message, sender, stamp),
        json::text_at(doc, "chatId"@) == Some(r.chat_id@),
        json::text_at(doc, "senderId"@) == Some(r.sender_id@),
        json::flag_at(doc, "read"@) == Some(r.read),
        json::flag_at(doc, "deleted"@) == Some(r.deleted),
    ensures
        is_unread_by(doc, message.chat_id@, uid) <==> uid != message.sender_id@,
        !is_deleted(doc),
        r.message_text@ == message.text@,
        r.image_urls@ == message.image_urls@,
        json::text_at(sender, "name"@) matches Some(n) ==> r.sender_display_name@ == n,
        json::text_at(sender, "name"@) is None ==> r.sender_display_name@ == "Someone"@,
        r.created_at@ == stamp,
{
}

/// A new thread is one between the buyer and the seller of the product, named
/// after the product and the buyer, and takes a first message of either. An
/// old one is answered with under the same name.
pub proof fn law_new_thread_takes_messages(
    r: (GetOrCreateChatResponse, Option<NewChat>),
    product: Json,
    product_id: Seq<char>,
    buyer: Seq<char>,
    existing: Json,
    stamp: Seq<char>,
    doc: Json,
    body: Seq<char>,
    now: Timestamp,
)
    requires
        opens(r, product, product_id, buyer, existing, stamp),
    ensures
        r.0.chat_id@ == product_id + "_"@ + buyer,
        r.0.is_new <==> existing is Null,
        r.1 is Some <==> existing is Null,
        r.1 matches Some(c) ==> {
            &&& c.chat_id@ == product_id + "_"@ + buyer
            &&& c.product_id@ == product_id
            &&& json::text_at(product, "name"@) matches Some(n) ==> c.product_title@ == n
            &&& (json::text_at(doc, "buyerId"@) == Some(c.buyer_id@) && json::text_at(
                doc,
                "sellerId"@,
            ) == Some(c.seller_id@) && json::int_at(doc, "messageCount"@) == Some(c.message_count)
                && json::member(doc, "lastMessageText"@) is None) ==> {
                &&& thread_refusal(buyer, body, doc, now) is None
                &&& thread_refusal(json::text_or_empty(product, "sellerId"@), body, doc, now)
                    is None
            }
            &&& c.buyer_unread_count == 0 && c.seller_unread_count == 0
        },
        json::items_at(product, "imageUrls"@).len() > 0 ==> (json::as_text(
            json::items_at(product, "imageUrls"@)[0],
        ) matches Some(u) ==> first_image(product) == u),
{
}

/// A message goes to the other of the two participants, and it is their own
/// unread count that reading a thread resets.
pub proof fn law_sides_of_a_thread(chat: Json, buyer: Seq<char>, seller: Seq<char>)
    requires
        json::text_at(chat, "buyerId"@) == Some(buyer),
        json::text_at(chat, "sellerId"@) == Some(seller),
        buyer != seller,
    ensures
        other_side(buyer, chat) == seller,
        other_side(seller, chat) == buyer,
        own_unread_field(buyer, chat) == "buyerUnreadCount"@,
        own_unread_field(seller, chat) == "sellerUnreadCount"@,
        unread_field(buyer, chat) == own_unread_field(seller, chat),
        unread_field(seller, chat) == own_unread_field(buyer, chat),
{
}

/// A report holds who made it, on which message of whom, with its text, and
/// why: the reason given, or else that it is inappropriate. It is pending.
pub proof fn law_report_holds_the_message(
    m: MessageReport,
    report_id: String,
    req: ReportMessageRequest,
    uid: Seq<char>,
    message: Json,
    stamp: Seq<char>,
)
    requires
        reports(m, report_id, req, uid, message, stamp),
    ensures
        m.reporter_id@ == uid,
        m.report_id == report_id && m.chat_id == req.chat_id && m.message_id == req.message_id,
        m.message_text@ == json::text_or_empty(message, "messageText"@),
        m.sender_id@ == json::text_or_empty(message, "senderId"@),
        req.reason matches Some(s) ==> m.reason@ == s@,
        req.reason is None ==> m.reason@ == "Inappropriate content"@,
        m.status@ == "pending"@,
        m.created_at@ == stamp,
{
}

/// A message is noted on its thread wherever the thread has room, the unread
/// counts can be raised and the preview ends with a character.
pub proof fn law_update_comes_out(sender: Seq<char>, body: Seq<char>, chat: Json)
    requires
        json::int_at_or(chat, "messageCount"@, 0) < 10_000,
        json::int_at_or(chat, "buyerUnreadCount"@, 0) < i64::MAX,
        json::int_at_or(chat, "sellerUnreadCount"@, 0) < i64::MAX,
        encode_utf8(body).len() <= 100 || is_char_boundary(encode_utf8(body), 100),
    ensures
        update_fits(sender, body, chat),
{
}

} // verus!
