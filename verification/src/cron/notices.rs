//! Short notices to users about what a job did to their orders.
use vstd::prelude::*;

use crate::cron::stock::alert_lang;
use crate::email::labels::wording;
use crate::fields;
use crate::json;
use crate::json::{json_of, Json};
use crate::rules;
use crate::text;
use crate::text::{decimal, joined, views};

verus! {

/// A notice to a user.
pub struct Notice {
    pub email: String,
    pub lang: String,
    pub subject: String,
    pub body: String,
}

/// The user has an address to write to.
pub open spec fn is_reachable(user: Json) -> bool {
    json::text_or_empty(user, fields::EMAIL@).len() > 0
}

/// `n` goes to `user` in their language and says this of the record `id`.
pub open spec fn notifies(
    n: Notice,
    user: Json,
    id: Seq<char>,
    subject: (Seq<char>, Seq<char>),
    body: (Seq<char>, Seq<char>),
) -> bool {
    let lang = alert_lang(user);
    &&& n.email@ == json::text_or_empty(user, fields::EMAIL@)
    &&& n.lang@ == lang
    &&& n.subject@ == wording(lang, subject.0, subject.1) + id
    &&& n.body@ == wording(lang, body.0, body.1)
}

/// The notice to a user who has an address. The wordings are English and
/// French.
fn notice(
    user: Option<&serde_json::Value>,
    id: &str,
    subject: (&str, &str),
    body: (&str, &str),
) -> (r: Option<Notice>)
    ensures
        match r {
            Some(n) => user is Some && is_reachable(json_of(*user->0)) && notifies(
                n,
                json_of(*user->0),
                id@,
                (subject.0@, subject.1@),
                (body.0@, body.1@),
            ),
            None => user is None || !is_reachable(json_of(*user->0)),
        },
{
    let user = user?;
    let email = json::text_field_or_empty(user, fields::EMAIL);
    if email.is_empty() {
        return None;
    }
    let lang = json::text_field_or(user, fields::PREFERRED_LANGUAGE, "en");
    let french = text::same(lang, "fr");
    let opening = if french {
        subject.1
    } else {
        subject.0
    };
    let said = if french {
        body.1
    } else {
        body.0
    };
    Some(
        Notice {
            email: email.to_owned(),
            lang: lang.to_owned(),
            subject: text::join2(opening, id),
            body: said.to_owned(),
        },
    )
}

// ------------------------------------------------------------ return requests

/// The subject of the notice of an escalated return request.
pub open spec fn escalation_subject() -> (Seq<char>, Seq<char>) {
    ("[Origna] Return request escalated: "@, "[Origna] Demande de retour transmise : "@)
}

/// What the notice of an escalated return request says.
pub open spec fn escalation_body() -> (Seq<char>, Seq<char>) {
    let days = decimal(rules::RETURN_ESCALATION_DAYS as nat);
    (
        joined(
            seq![
                "A return request was flagged for admin review: no seller response after "@,
                days,
                " days."@,
            ],
        ),
        joined(
            seq![
                "Une demande de retour a été transmise à l'administration : aucune réponse du vendeur après "@,
                days,
                " jours."@,
            ],
        ),
    )
}

/// The notice of an escalated return request to its seller, where the seller
/// has an address. `seller` is the seller's document, if found.
pub fn escalation_notice(
    request: &serde_json::Value,
    seller: Option<&serde_json::Value>,
) -> (r: Option<Notice>)
    ensures
        match r {
            Some(n) => seller is Some && is_reachable(json_of(*seller->0)) && notifies(
                n,
                json_of(*seller->0),
                json::text_or_empty(json_of(*request), fields::ID@),
                escalation_subject(),
                escalation_body(),
            ),
            None => seller is None || !is_reachable(json_of(*seller->0)),
        },
{
    let days = text::decimal_text(rules::RETURN_ESCALATION_DAYS as u128);
    let english = [
        "A return request was flagged for admin review: no seller response after ",
        days.as_str(),
        " days.",
    ];
    let french = [
        "Une demande de retour a été transmise à l'administration : aucune réponse du vendeur après ",
        days.as_str(),
        " jours.",
    ];
    let en = text::join(&english);
    let fr = text::join(&french);
    proof {
        let d = decimal(rules::RETURN_ESCALATION_DAYS as nat);
        assert(views(english@) =~= seq![
            "A return request was flagged for admin review: no seller response after "@,
            d,
            " days."@,
        ]);
        assert(views(french@) =~= seq![
            "Une demande de retour a été transmise à l'administration : aucune réponse du vendeur après "@,
            d,
            " jours."@,
        ]);
    }
    notice(
        seller,
        json::text_field_or_empty(request, fields::ID),
        ("[Origna] Return request escalated: ", "[Origna] Demande de retour transmise : "),
        (en.as_str(), fr.as_str()),
    )
}

// ------------------------------------------------------------- expired orders

/// The subject of the notice of an expired order.
pub open spec fn expiry_subject() -> (Seq<char>, Seq<char>) {
    ("[Origna] Order cancelled: "@, "[Origna] Commande annulée : "@)
}

/// What the notice of an expired order says.
pub open spec fn expiry_body() -> (Seq<char>, Seq<char>) {
    (
        "Payment authorization expired after 7 days. Order cancelled and stock restored."@,
        "L'autorisation de paiement a expiré après 7 jours. Commande annulée et stock rétabli."@,
    )
}

/// The notice of an expired order to its buyer or one of its sellers, where
/// they have an address. `user` is their document, if found.
pub fn expiry_notice(order_key: &str, user: Option<&serde_json::Value>) -> (r: Option<Notice>)
    ensures
        match r {
            Some(n) => user is Some && is_reachable(json_of(*user->0)) && notifies(
                n,
                json_of(*user->0),
                order_key@,
                expiry_subject(),
                expiry_body(),
            ),
            None => user is None || !is_reachable(json_of(*user->0)),
        },
{
    notice(
        user,
        order_key,
        ("[Origna] Order cancelled: ", "[Origna] Commande annulée : "),
        (
            "Payment authorization expired after 7 days. Order cancelled and stock restored.",
            "L'autorisation de paiement a expiré après 7 jours. Commande annulée et stock rétabli.",
        ),
    )
}

// ------------------------------------------------------------------------ laws

/// A notice goes to whoever has an address, at that address, in their language
/// or else in English, and names what it is about.
pub proof fn law_notice_goes_to_the_user(
    n: Notice,
    user: Json,
    id: Seq<char>,
    subject: (Seq<char>, Seq<char>),
    body: (Seq<char>, Seq<char>),
)
    requires
        notifies(n, user, id, subject, body),
    ensures
        is_reachable(user) <==> json::text_or_empty(user, "email"@).len() > 0,
        n.email@ == json::text_or_empty(user, "email"@),
        json::text_at(user, "preferredLanguage"@) == Some("fr"@) ==> n.subject@ == subject.1 + id
            && n.body@ == body.1 && n.lang@ == "fr"@,
        json::text_at(user, "preferredLanguage"@) != Some("fr"@) ==> n.subject@ == subject.0 + id
            && n.body@ == body.0,
        json::text_at(user, "preferredLanguage"@) is None ==> n.lang@ == "en"@,
{
    reveal_strlit("en");
    reveal_strlit("fr");
    assert("en"@[0] != "fr"@[0]);
}

} // verus!
