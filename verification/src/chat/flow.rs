//! The order in which the chat handlers look things up and decide: from what
//! is known so far to the next step.
use vstd::prelude::*;

use crate::chat::{
    buyer_of, check_buyer_premium, check_chat_product, check_eligible_order, check_sender_premium,
    check_thread, has_eligible_order, is_buyer, is_replay, message_count, participates,
    product_refusal, thread_refusal, PendingMessage, MAX_MESSAGES_PER_THREAD,
};
use crate::error::{not_found, Error, Fault};
use crate::json::{json_of, jsons, Json};
use crate::time::Timestamp;

verus! {

// ------------------------------------------------------------ sending a message

/// What is known when a message is sent; nothing where it was not looked up
/// yet.
pub struct SendAnswers<'a> {
    /// The thread, itself nothing where the lookup failed.
    pub chat: Option<Option<&'a serde_json::Value>>,
    /// Whether the sender is premium.
    pub premium: Option<bool>,
    /// Whether the rate limit let the sender pass.
    pub rate_passed: bool,
    /// The message with the same identifier, `null` for none.
    pub existing: Option<&'a serde_json::Value>,
    /// The sender.
    pub sender: Option<&'a serde_json::Value>,
}

/// The next step in sending a message.
#[derive(Debug)]
pub enum SendStep {
    LookUpChat,
    LookUpPremium,
    CheckRate,
    LookUpExisting,
    LookUpSender,
    /// The message is refused.
    Refuse(Error),
    /// The message was stored before: the same answer is given again.
    Replay,
    /// The message is stored and its thread updated.
    Store,
}

/// A [`SendStep`] with its error as a fault.
pub enum SendStepView {
    LookUpChat,
    LookUpPremium,
    CheckRate,
    LookUpExisting,
    LookUpSender,
    Refuse(Fault),
    Replay,
    Store,
}

impl View for SendStep {
    type V = SendStepView;

    open spec fn view(&self) -> SendStepView {
        match self {
            SendStep::LookUpChat => SendStepView::LookUpChat,
            SendStep::LookUpPremium => SendStepView::LookUpPremium,
            SendStep::CheckRate => SendStepView::CheckRate,
            SendStep::LookUpExisting => SendStepView::LookUpExisting,
            SendStep::LookUpSender => SendStepView::LookUpSender,
            SendStep::Refuse(e) => SendStepView::Refuse(e@),
            SendStep::Replay => SendStepView::Replay,
            SendStep::Store => SendStepView::Store,
        }
    }
}

/// The next step once the thread is known.
pub open spec fn send_step_in(
    message: PendingMessage,
    chat: Json,
    answers: SendAnswers,
    now: Timestamp,
) -> SendStepView {
    let refusal = thread_refusal(message.sender_id@, message.text@, chat, now);
    if refusal is Some {
        SendStepView::Refuse(refusal->0)
    } else if message.sender_id@ == buyer_of(chat) && answers.premium is None {
        SendStepView::LookUpPremium
    } else if message.sender_id@ == buyer_of(chat) && answers.premium == Some(false) {
        SendStepView::Refuse(Fault::Forbidden("Premium required."@))
    } else if !answers.rate_passed {
        SendStepView::CheckRate
    } else if message.message_id is Some && answers.existing is None {
        SendStepView::LookUpExisting
    } else if message.message_id is Some && !(json_of(*answers.existing->0) is Null) {
        SendStepView::Replay
    } else if answers.sender is None {
        SendStepView::LookUpSender
    } else {
        SendStepView::Store
    }
}

/// The next step in sending a message: first the thread decides, next the
/// sender's subscription, next the rate limit, next whether the message was
/// stored before.
pub open spec fn send_step(
    message: PendingMessage,
    answers: SendAnswers,
    now: Timestamp,
) -> SendStepView {
    match answers.chat {
        None => SendStepView::LookUpChat,
        Some(None) => SendStepView::Refuse(Fault::NotFound("Chat thread not found."@)),
        Some(Some(chat)) => send_step_in(message, json_of(*chat), answers, now),
    }
}

/// The next step in sending a message, from what is known.
pub fn next_send_step(message: &PendingMessage, answers: &SendAnswers, now: Timestamp) -> (r:
    SendStep)
    requires
        now.of_clock(),
    ensures
        r@ == send_step(*message, *answers, now),
{
    let chat = match answers.chat {
        None => return SendStep::LookUpChat,
        Some(None) => return SendStep::Refuse(not_found("Chat thread not found.")),
        Some(Some(c)) => c,
    };
    if let Err(e) = check_thread(message, chat, now) {
        return SendStep::Refuse(e);
    }
    if is_buyer(message.sender_id.as_str(), chat) {
        match answers.premium {
            None => return SendStep::LookUpPremium,
            Some(p) => {
                if let Err(e) = check_sender_premium(message, chat, p) {
                    return SendStep::Refuse(e);
                }
            },
        }
    }
    if !answers.rate_passed {
        return SendStep::CheckRate;
    }
    if message.message_id.is_some() {
        match answers.existing {
            None => return SendStep::LookUpExisting,
            Some(x) => {
                if is_replay(message, x) {
                    return SendStep::Replay;
                }
            },
        }
    }
    match answers.sender {
        None => SendStep::LookUpSender,
        Some(_) => SendStep::Store,
    }
}

/// A message is stored only where every check passed: its sender takes part
/// in the thread, the thread has room and does not end in the same text sent
/// just now, a buyer is premium, the rate limit let them pass, and no message
/// with its identifier was stored before.
pub proof fn law_stored_only_after_every_check(
    message: PendingMessage,
    answers: SendAnswers,
    now: Timestamp,
)
    requires
        send_step(message, answers, now) == SendStepView::Store,
    ensures
        answers.chat matches Some(Some(c)) && {
            let chat = json_of(*c);
            &&& participates(message.sender_id@, chat)
            &&& message_count(chat) < MAX_MESSAGES_PER_THREAD
            &&& !crate::chat::is_repeat(message.text@, chat, now)
            &&& message.sender_id@ == buyer_of(chat) ==> answers.premium == Some(true)
        },
        answers.rate_passed,
        message.message_id is Some ==> answers.existing is Some && json_of(*answers.existing->0)
            is Null,
{
}

/// A message that was stored is not stored again under its identifier,
/// whatever else is known.
pub proof fn law_message_id_stored_once(
    message: PendingMessage,
    answers: SendAnswers,
    now: Timestamp,
)
    requires
        message.message_id is Some,
        answers.existing is Some,
        !(json_of(*answers.existing->0) is Null),
    ensures
        send_step(message, answers, now) != SendStepView::Store,
{
}

// -------------------------------------------------------------- opening a chat

/// What is known when a chat is opened; nothing where it was not looked up
/// yet.
pub struct OpenAnswers<'a> {
    /// Whether the buyer is premium.
    pub premium: Option<bool>,
    /// The product, `null` for none.
    pub product: Option<&'a serde_json::Value>,
    /// The buyer's delivered and disputed orders.
    pub orders: Option<&'a Vec<serde_json::Value>>,
    /// The thread, `null` for none.
    pub existing: Option<&'a serde_json::Value>,
}

/// The next step in opening a chat.
#[derive(Debug)]
pub enum OpenStep {
    LookUpPremium,
    LookUpProduct,
    LookUpOrders,
    LookUpChat,
    /// The chat is refused.
    Refuse(Error),
    /// The chat is answered with, and stored where it is new.
    Answer,
}

/// An [`OpenStep`] with its error as a fault.
pub enum OpenStepView {
    LookUpPremium,
    LookUpProduct,
    LookUpOrders,
    LookUpChat,
    Refuse(Fault),
    Answer,
}

impl View for OpenStep {
    type V = OpenStepView;

    open spec fn view(&self) -> OpenStepView {
        match self {
            OpenStep::LookUpPremium => OpenStepView::LookUpPremium,
            OpenStep::LookUpProduct => OpenStepView::LookUpProduct,
            OpenStep::LookUpOrders => OpenStepView::LookUpOrders,
            OpenStep::LookUpChat => OpenStepView::LookUpChat,
            OpenStep::Refuse(e) => OpenStepView::Refuse(e@),
            OpenStep::Answer => OpenStepView::Answer,
        }
    }
}

/// The next step in opening a chat about a product: first the buyer's
/// subscription decides, next the product, next the buyer's orders.
pub open spec fn open_step(
    buyer: Seq<char>,
    product_id: Seq<char>,
    answers: OpenAnswers,
) -> OpenStepView {
    if answers.premium is None {
        OpenStepView::LookUpPremium
    } else if answers.premium == Some(false) {
        OpenStepView::Refuse(
            Fault::Forbidden("Premium subscription required to chat with sellers."@),
        )
    } else if answers.product is None {
        OpenStepView::LookUpProduct
    } else if product_refusal(json_of(*answers.product->0), buyer) is Some {
        OpenStepView::Refuse(product_refusal(json_of(*answers.product->0), buyer)->0)
    } else if answers.orders is None {
        OpenStepView::LookUpOrders
    } else if !has_eligible_order(jsons((*answers.orders->0)@), product_id) {
        OpenStepView::Refuse(
            Fault::Validation(
                "You must have a delivered order for this product before starting a chat with the seller."@,
            ),
        )
    } else if answers.existing is None {
        OpenStepView::LookUpChat
    } else {
        OpenStepView::Answer
    }
}

/// The next step in opening a chat, from what is known.
pub fn next_open_step(buyer: &str, product_id: &str, answers: &OpenAnswers) -> (r: OpenStep)
    ensures
        r@ == open_step(buyer@, product_id@, *answers),
{
    match answers.premium {
        None => return OpenStep::LookUpPremium,
        Some(p) => {
            if let Err(e) = check_buyer_premium(p) {
                return OpenStep::Refuse(e);
            }
        },
    }
    match answers.product {
        None => return OpenStep::LookUpProduct,
        Some(product) => {
            if let Err(e) = check_chat_product(product, buyer) {
                return OpenStep::Refuse(e);
            }
        },
    }
    match answers.orders {
        None => return OpenStep::LookUpOrders,
        Some(orders) => {
            if let Err(e) = check_eligible_order(orders, product_id) {
                return OpenStep::Refuse(e);
            }
        },
    }
    match answers.existing {
        None => OpenStep::LookUpChat,
        Some(_) => OpenStep::Answer,
    }
}

/// A chat is opened only by a premium buyer, about a product that is on sale
/// and not their own, and that an order of theirs holds.
pub proof fn law_chat_opened_only_if_entitled(
    buyer: Seq<char>,
    product_id: Seq<char>,
    answers: OpenAnswers,
)
    requires
        open_step(buyer, product_id, answers) == OpenStepView::Answer,
    ensures
        answers.premium == Some(true),
        answers.product is Some && product_refusal(json_of(*answers.product->0), buyer) is None,
        answers.orders is Some && has_eligible_order(
            jsons((*answers.orders->0)@),
            product_id,
        ),
{
}

/// A message is stored wherever every check passes: once all is known, it is
/// stored exactly where the thread takes it, a buyer who sends it is premium
/// and the rate limit let them pass, unless it was stored before.
pub proof fn law_stored_where_every_check_passes(
    message: PendingMessage,
    chat: &serde_json::Value,
    premium: bool,
    rate_passed: bool,
    existing: &serde_json::Value,
    sender: &serde_json::Value,
    now: Timestamp,
)
    ensures
        ({
            let known = SendAnswers {
                chat: Some(Some(chat)),
                premium: Some(premium),
                rate_passed,
                existing: Some(existing),
                sender: Some(sender),
            };
            let taken = thread_refusal(message.sender_id@, message.text@, json_of(*chat), now)
                is None && (premium || message.sender_id@ != crate::json::text_or_empty(
                json_of(*chat),
                "buyerId"@,
            )) && rate_passed;
            let again = message.message_id is Some && !(json_of(*existing) is Null);
            &&& send_step(message, known, now) == SendStepView::Store <==> taken && !again
            &&& send_step(message, known, now) == SendStepView::Replay <==> taken && again
        }),
{
}

/// A chat is answered with wherever the buyer is premium, the product can be
/// chatted about and an order entitles them.
pub proof fn law_opened_where_entitled(
    buyer: Seq<char>,
    product_id: Seq<char>,
    premium: bool,
    product: &serde_json::Value,
    orders: &Vec<serde_json::Value>,
    existing: &serde_json::Value,
)
    ensures
        ({
            let known = OpenAnswers {
                premium: Some(premium),
                product: Some(product),
                orders: Some(orders),
                existing: Some(existing),
            };
            open_step(buyer, product_id, known) == OpenStepView::Answer <==> premium
                && product_refusal(json_of(*product), buyer) is None && has_eligible_order(
                jsons(orders@),
                product_id,
            )
        }),
{
}

/// Sending looks up what it needs in order: the thread; for its buyer the
/// subscription; the rate; the message, where it brought an identifier; the
/// sender. Who is refused is told why at once.
pub proof fn law_sending_asks_in_order(
    message: PendingMessage,
    answers: SendAnswers,
    chat: &serde_json::Value,
    now: Timestamp,
)
    ensures
        answers.chat is None ==> send_step(message, answers, now) == SendStepView::LookUpChat,
        answers.chat == Some(None::<&serde_json::Value>) ==> send_step(message, answers, now)
            == SendStepView::Refuse(Fault::NotFound("Chat thread not found."@)),
        answers.chat == Some(Some(chat)) ==> {
            let buyer = message.sender_id@ == crate::json::text_or_empty(
                json_of(*chat),
                "buyerId"@,
            );
            let refusal = thread_refusal(message.sender_id@, message.text@, json_of(*chat), now);
            let step = send_step(message, answers, now);
            &&& refusal matches Some(f) ==> step == SendStepView::Refuse(f)
            &&& refusal is None ==> {
                &&& buyer && answers.premium is None ==> step == SendStepView::LookUpPremium
                &&& buyer && answers.premium == Some(false) ==> step == SendStepView::Refuse(
                    Fault::Forbidden("Premium required."@),
                )
                &&& !buyer || answers.premium == Some(true) ==> {
                    let asked = message.message_id is Some;
                    let stored = answers.existing matches Some(x) && !(json_of(*x) is Null);
                    &&& !answers.rate_passed ==> step == SendStepView::CheckRate
                    &&& answers.rate_passed && asked && answers.existing is None ==> step
                        == SendStepView::LookUpExisting
                    &&& answers.rate_passed && asked && stored ==> step == SendStepView::Replay
                    &&& answers.rate_passed && (!asked || (answers.existing is Some && !stored))
                        ==> step == if answers.sender is None {
                        SendStepView::LookUpSender
                    } else {
                        SendStepView::Store
                    }
                }
            }
        },
{
}

/// Opening a chat looks up what it needs in order: the subscription, the
/// product, the orders, the thread. Who is refused is told why at once.
pub proof fn law_opening_asks_in_order(
    buyer: Seq<char>,
    product_id: Seq<char>,
    answers: OpenAnswers,
)
    ensures
        ({
            let step = open_step(buyer, product_id, answers);
            &&& answers.premium is None ==> step == OpenStepView::LookUpPremium
            &&& answers.premium == Some(false) ==> step == OpenStepView::Refuse(
                Fault::Forbidden("Premium subscription required to chat with sellers."@),
            )
            &&& answers.premium == Some(true) ==> {
                &&& answers.product is None ==> step == OpenStepView::LookUpProduct
                &&& answers.product matches Some(p) ==> {
                    let refusal = product_refusal(json_of(*p), buyer);
                    &&& refusal matches Some(f) ==> step == OpenStepView::Refuse(f)
                    &&& refusal is None && answers.orders is None ==> step
                        == OpenStepView::LookUpOrders
                    &&& refusal is None ==> (answers.orders matches Some(o) ==> {
                        &&& !has_eligible_order(jsons(o@), product_id) ==> step is Refuse
                        &&& has_eligible_order(jsons(o@), product_id) ==> step
                            == if answers.existing is None {
                            OpenStepView::LookUpChat
                        } else {
                            OpenStepView::Answer
                        }
                    })
                }
            }
        }),
{
}

} // verus!
