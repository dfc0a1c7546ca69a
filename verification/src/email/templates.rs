//! The notification that an order was shipped.
use vstd::prelude::*;

use crate::email::labels::{label, pick, t, wording};
use crate::email::{
    cuttable, email_wrapper, escaped, html_escape, lang_for, markup, shell, short_form, short_id,
    written_lang, EmailConfig, OrderSummary,
};
use crate::text;
use crate::text::{joined, views};

verus! {

/// The carrier, where one is named.
pub open spec fn named_carrier(carrier: Option<&str>) -> Option<Seq<char>> {
    match carrier {
        Some(c) => if text::is_blank(c@) {
            None
        } else {
            Some(c@)
        },
        None => None,
    }
}

/// How a buyer is addressed.
pub open spec fn salutation(buyer_name: Seq<char>, l: Seq<char>) -> Seq<char> {
    if text::is_blank(buyer_name) {
        wording(l, "Hello"@, "Bonjour"@)
    } else {
        wording(l, "Hello "@, "Bonjour "@) + escaped(buyer_name)
    }
}

/// The sentence that gives the carrier and the tracking number.
pub open spec fn tracking_line(
    short: Seq<char>,
    tracking_number: Seq<char>,
    carrier: Option<Seq<char>>,
    l: Seq<char>,
) -> Seq<char> {
    let start = wording(l, "Your order #"@, "Votre commande #"@);
    match carrier {
        Some(c) => joined(
            seq![
                start,
                short,
                wording(l, " is on the way via "@, " est en route via "@),
                escaped(c),
                wording(l, ". Tracking: "@, ". Suivi: "@),
                escaped(tracking_number),
                "."@,
            ],
        ),
        None => joined(
            seq![
                start,
                short,
                wording(l, " is on the way. Tracking: "@, " est en route. Suivi: "@),
                escaped(tracking_number),
                "."@,
            ],
        ),
    }
}

/// The parts of the row that names the carrier `c`.
pub open spec fn carrier_parts(c: Seq<char>, l: Seq<char>) -> Seq<Seq<char>> {
    seq![
        markup::SHIPPING_CARRIER_BEFORE_CARRIER_LABEL@,
        wording(l, "Carrier"@, "Transporteur"@),
        markup::SHIPPING_CARRIER_BEFORE_CARRIER@,
        escaped(c),
        markup::SHIPPING_CARRIER_END@,
    ]
}

/// The row that names the carrier, where one is named.
pub open spec fn carrier_row(carrier: Option<Seq<char>>, l: Seq<char>) -> Seq<char> {
    match carrier {
        Some(c) => joined(carrier_parts(c, l)),
        None => Seq::empty(),
    }
}

/// The title of a shipping notification.
pub open spec fn shipped_title(short: Seq<char>, l: Seq<char>) -> Seq<char> {
    joined(
        seq![wording(l, "Order #"@, "Commande #"@), short, wording(l, " shipped"@, " expédiée"@)],
    )
}

/// The parts of what a shipping notification says in the language `l`.
pub open spec fn shipping_parts(
    order: OrderSummary,
    buyer_name: Seq<char>,
    tracking_number: Seq<char>,
    carrier: Option<Seq<char>>,
    l: Seq<char>,
    config: EmailConfig,
) -> Seq<Seq<char>> {
    let short = short_form(order.order_id@);
    seq![
        markup::SHIPPING_BEFORE_HERO@,
        wording(l, "Your order is on the way"@, "Votre commande est en route"@),
        markup::SHIPPING_BEFORE_BUYER@,
        salutation(buyer_name, l),
        markup::SHIPPING_BEFORE_TRACKING_LINE@,
        tracking_line(short, tracking_number, carrier, l),
        markup::SHIPPING_BEFORE_ORDER_LABEL@,
        label("label.order_id"@, l),
        markup::SHIPPING_BEFORE_SHORT_ID@,
        short,
        markup::SHIPPING_BEFORE_TRACKING_LABEL@,
        wording(l, "Tracking number"@, "Numéro de suivi"@),
        markup::SHIPPING_BEFORE_TRACKING_NUMBER@,
        escaped(tracking_number),
        markup::SHIPPING_BEFORE_CARRIER_ROW@,
        carrier_row(carrier, l),
        markup::SHIPPING_BEFORE_URL@,
        config.url_prod@,
        markup::SHIPPING_BEFORE_CTA@,
        label("cta.track_order"@, l),
        markup::SHIPPING_END@,
    ]
}

/// The email that tells a buyer that their order was shipped.
pub open spec fn shipping_notification(
    order: OrderSummary,
    buyer_name: Seq<char>,
    tracking_number: Seq<char>,
    carrier: Option<Seq<char>>,
    lang: Seq<char>,
    config: EmailConfig,
) -> Seq<char> {
    let l = written_lang(lang);
    shell(
        shipped_title(short_form(order.order_id@), l),
        joined(shipping_parts(order, buyer_name, tracking_number, carrier, l, config)),
        true,
        l,
        config,
    )
}

fn salutation_text(buyer_name: &str, l: &str) -> (r: String)
    ensures
        r@ == salutation(buyer_name@, l@),
{
    if text::blank(buyer_name) {
        pick(l, "Hello", "Bonjour").to_owned()
    } else {
        text::join2(pick(l, "Hello ", "Bonjour "), html_escape(buyer_name).as_str())
    }
}

fn tracking_text(short: &str, number: &str, carrier: Option<&str>, l: &str) -> (r: String)
    ensures
        r@ == tracking_line(short@, number@, named_carrier(carrier), l@),
{
    let start = pick(l, "Your order #", "Votre commande #");
    let safe_number = html_escape(number);
    if let Some(c) = carrier {
        if !text::blank(c) {
            let via = pick(l, " is on the way via ", " est en route via ");
            let name = html_escape(c);
            let track = pick(l, ". Tracking: ", ". Suivi: ");
            let parts = [start, short, via, name.as_str(), track, safe_number.as_str(), "."];
            let r = text::join(&parts);
            assert(views(parts@) =~= seq![
                start@,
                short@,
                via@,
                escaped(c@),
                track@,
                escaped(number@),
                "."@,
            ]);
            return r;
        }
    }
    let track = pick(l, " is on the way. Tracking: ", " est en route. Suivi: ");
    let parts = [start, short, track, safe_number.as_str(), "."];
    let r = text::join(&parts);
    assert(views(parts@) =~= seq![start@, short@, track@, escaped(number@), "."@]);
    r
}

fn carrier_text(carrier: Option<&str>, l: &str) -> (r: String)
    ensures
        r@ == carrier_row(named_carrier(carrier), l@),
{
    if let Some(value) = carrier {
        if !text::blank(value) {
            let name = html_escape(value);
            let parts = [
                markup::SHIPPING_CARRIER_BEFORE_CARRIER_LABEL,
                pick(l, "Carrier", "Transporteur"),
                markup::SHIPPING_CARRIER_BEFORE_CARRIER,
                name.as_str(),
                markup::SHIPPING_CARRIER_END,
            ];
            let r = text::join(&parts);
            assert(views(parts@) =~= carrier_parts(value@, l@));
            return r;
        }
    }
    String::new()
}

fn title_text(short: &str, l: &str) -> (r: String)
    ensures
        r@ == shipped_title(short@, l@),
{
    let head = pick(l, "Order #", "Commande #");
    let tail = pick(l, " shipped", " expédiée");
    let parts = [head, short, tail];
    let r = text::join(&parts);
    assert(views(parts@) =~= seq![head@, short@, tail@]);
    r
}

/// The email that tells a buyer that their order was shipped, with the
/// tracking number and the carrier, in English or in French.
pub fn shipping_notification_html(
    order: &OrderSummary,
    buyer_name: &str,
    tracking_number: &str,
    carrier: Option<&str>,
    lang: &str,
    config: &EmailConfig,
) -> (r: String)
    requires
        cuttable(order.order_id@),
    ensures
        r@ == shipping_notification(
            *order,
            buyer_name@,
            tracking_number@,
            named_carrier(carrier),
            lang@,
            *config,
        ),
{
    let l = lang_for(lang);
    let short = short_id(order.order_id.as_str());
    let buyer = salutation_text(buyer_name, l);
    let line = tracking_text(short, tracking_number, carrier, l);
    let number = html_escape(tracking_number);
    let row = carrier_text(carrier, l);
    let parts = [
        markup::SHIPPING_BEFORE_HERO,
        pick(l, "Your order is on the way", "Votre commande est en route"),
        markup::SHIPPING_BEFORE_BUYER,
        buyer.as_str(),
        markup::SHIPPING_BEFORE_TRACKING_LINE,
        line.as_str(),
        markup::SHIPPING_BEFORE_ORDER_LABEL,
        t("label.order_id", l),
        markup::SHIPPING_BEFORE_SHORT_ID,
        short,
        markup::SHIPPING_BEFORE_TRACKING_LABEL,
        pick(l, "Tracking number", "Numéro de suivi"),
        markup::SHIPPING_BEFORE_TRACKING_NUMBER,
        number.as_str(),
        markup::SHIPPING_BEFORE_CARRIER_ROW,
        row.as_str(),
        markup::SHIPPING_BEFORE_URL,
        config.url_prod.as_str(),
        markup::SHIPPING_BEFORE_CTA,
        t("cta.track_order", l),
        markup::SHIPPING_END,
    ];
    let content = text::join(&parts);
    assert(views(parts@) =~= shipping_parts(
        *order,
        buyer_name@,
        tracking_number@,
        named_carrier(carrier),
        l@,
        *config,
    ));
    email_wrapper(title_text(short, l).as_str(), content.as_str(), true, l, config)
}

/// A shipping notification gives the tracking number behind its label and the
/// order's number behind its own, and says by whom it comes where that is
/// known.
pub proof fn law_shipping_states_tracking(
    order: OrderSummary,
    buyer_name: Seq<char>,
    tracking_number: Seq<char>,
    carrier: Option<Seq<char>>,
    config: EmailConfig,
)
    ensures
        ({
            let content = joined(
                shipping_parts(order, buyer_name, tracking_number, carrier, "en"@, config),
            );
            &&& text::occurs(
                content,
                wording("en"@, "Tracking number"@, "Numéro de suivi"@)
                    + markup::SHIPPING_BEFORE_TRACKING_NUMBER@ + escaped(tracking_number),
            )
            &&& text::occurs(
                content,
                label("label.order_id"@, "en"@) + markup::SHIPPING_BEFORE_SHORT_ID@ + short_form(
                    order.order_id@,
                ),
            )
            &&& carrier matches Some(c) ==> text::occurs(
                content,
                carrier_row(carrier, "en"@),
            ) && text::occurs(carrier_row(carrier, "en"@), escaped(c))
            &&& carrier is None ==> carrier_row(carrier, "en"@).len() == 0
        }),
{
    let parts = shipping_parts(order, buyer_name, tracking_number, carrier, "en"@, config);
    text::law_joined_holds_runs(parts, 11, 14);
    assert(parts.subrange(11, 14) =~= seq![parts[11], parts[12], parts[13]]);
    text::lemma_joined_three(parts[11], parts[12], parts[13]);
    text::law_joined_holds_runs(parts, 7, 10);
    assert(parts.subrange(7, 10) =~= seq![parts[7], parts[8], parts[9]]);
    text::lemma_joined_three(parts[7], parts[8], parts[9]);
    text::law_joined_holds_parts(parts, 15);
    if let Some(c) = carrier {
        text::law_joined_holds_parts(carrier_parts(c, "en"@), 3);
    }
}

} // verus!
