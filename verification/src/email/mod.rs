//! Emails: the markup of each, and the request that sends one.
use vstd::prelude::*;
use vstd::string::*;
use vstd::utf8::*;

use crate::lists::first_n;
use crate::text;
use crate::text::{decimal, dollars, joined, views};

pub mod helpers;
pub mod labels;
pub mod markup;
pub mod templates;

pub use self::labels::t;
pub use self::templates::shipping_notification_html;
use self::labels::{label, pick, wording};

verus! {

// ------------------------------------------------------------- what is written

/// The facts about the company that every email states.
#[derive(Debug, Clone)]
pub struct EmailConfig {
    pub app_tagline: String,
    pub copyright_text: String,
    pub gst_hst_number: String,
    pub physical_address: String,
    pub privacy_officer_email: String,
    pub sender_name: String,
    pub support_email: String,
    pub url_prod: String,
}

/// An order as emails show it.
#[derive(Debug, Clone)]
pub struct OrderSummary {
    pub order_id: String,
    pub items: Vec<OrderItem>,
    pub subtotal_cents: i64,
    pub shipping_cost_cents: i64,
    pub tax_amount_cents: i64,
    pub total_amount_cents: i64,
}

/// An item of an order as emails show it.
#[derive(Debug, Clone)]
pub struct OrderItem {
    pub name: String,
    pub quantity: u32,
    pub price_cents: i64,
}

/// An item of a cart as emails show it.
#[derive(Debug, Clone)]
pub struct CartItem {
    pub name: String,
}

/// The language that emails are written in: French where that is asked for,
/// English otherwise.
pub open spec fn written_lang(lang: Seq<char>) -> Seq<char> {
    if lang == "fr"@ {
        "fr"@
    } else {
        "en"@
    }
}

/// The language that emails are written in.
pub fn lang_for(lang: &str) -> (r: &'static str)
    ensures
        r@ == written_lang(lang@),
{
    if text::same(lang, "fr") {
        "fr"
    } else {
        "en"
    }
}

/// An order number can be cut after its first eight bytes.
pub open spec fn cuttable(order_id: Seq<char>) -> bool {
    encode_utf8(order_id).len() > 8 ==> is_char_boundary(encode_utf8(order_id), 8)
}

/// The order number as emails show it: its first eight bytes.
pub open spec fn short_form(order_id: Seq<char>) -> Seq<char> {
    if encode_utf8(order_id).len() > 8 {
        decode_utf8(encode_utf8(order_id).take(8))
    } else {
        order_id
    }
}

/// The order number as emails show it: its first eight bytes.
pub fn short_id(order_id: &str) -> (r: &str)
    requires
        cuttable(order_id@),
    ensures
        r@ == short_form(order_id@),
{
    if text::byte_len(order_id) > 8 {
        let (head, _) = order_id.split_at(8);
        proof {
            encode_utf8_decode_utf8(head@);
        }
        head
    } else {
        order_id
    }
}

// ------------------------------------------------------------------- escaping

/// What a character is written as in markup.
pub open spec fn escaped_char(c: char) -> Seq<char> {
    if c == '&' {
        "&amp;"@
    } else if c == '<' {
        "&lt;"@
    } else if c == '>' {
        "&gt;"@
    } else if c == '"' {
        "&quot;"@
    } else {
        seq![c]
    }
}

/// What a text is written as in markup.
pub open spec fn escaped(s: Seq<char>) -> Seq<char>
    decreases s.len(),
{
    if s.len() == 0 {
        Seq::empty()
    } else {
        escaped(s.drop_last()) + escaped_char(s.last())
    }
}

/// A text as it is written in markup.
pub fn html_escape(s: &str) -> (r: String)
    ensures
        r@ == escaped(s@),
{
    let v = text::chars_of(s);
    let mut out = String::new();
    let mut i: usize = 0;
    while i < v.len()
        invariant
            i <= v@.len(),
            v@ == s@,
            out@ == escaped(s@.take(i as int)),
        decreases v@.len() - i,
    {
        let c = v[i];
        assert(s@.take(i + 1).drop_last() =~= s@.take(i as int));
        assert(s@.take(i + 1).last() == c);
        if c == '&' {
            out.append("&amp;");
        } else if c == '<' {
            out.append("&lt;");
        } else if c == '>' {
            out.append("&gt;");
        } else if c == '"' {
            out.append("&quot;");
        } else {
            out.push(c);
            assert(out@ =~= escaped(s@.take(i as int)) + seq![c]);
        }
        i = i + 1;
    }
    assert(s@.take(i as int) =~= s@);
    out
}

/// Nothing that could open or close a tag or an attribute is left in an
/// escaped text.
pub proof fn law_escaped_is_inert(s: Seq<char>, i: int)
    requires
        0 <= i < escaped(s).len(),
    ensures
        escaped(s)[i] != '<',
        escaped(s)[i] != '>',
        escaped(s)[i] != '"',
    decreases s.len(),
{
    reveal_strlit("&amp;");
    reveal_strlit("&lt;");
    reveal_strlit("&gt;");
    reveal_strlit("&quot;");
    let before = escaped(s.drop_last());
    if i < before.len() {
        law_escaped_is_inert(s.drop_last(), i);
    } else {
        assert(escaped(s)[i] == escaped_char(s.last())[i - before.len()]);
    }
}

/// A text without special characters is written as it is.
pub proof fn law_plain_text_unchanged(s: Seq<char>)
    requires
        forall|i: int|
            0 <= i < s.len() ==> s[i] != '&' && s[i] != '<' && s[i] != '>' && s[i] != '"',
    ensures
        escaped(s) == s,
    decreases s.len(),
{
    if s.len() > 0 {
        law_plain_text_unchanged(s.drop_last());
        assert(s[s.len() - 1] == s.last());
        assert(escaped(s) =~= s);
    } else {
        assert(escaped(s) =~= s);
    }
}

// ---------------------------------------------------------------------- shell

/// The parts of the tax registration line.
pub open spec fn tax_parts(config: EmailConfig) -> Seq<Seq<char>> {
    seq![
        markup::GST_BEFORE_NUMBER@,
        config.gst_hst_number@,
        markup::GST_END@,
    ]
}

/// The tax registration line, where it is asked for.
pub open spec fn tax_line(include_gst: bool, config: EmailConfig) -> Seq<char> {
    if include_gst {
        joined(tax_parts(config))
    } else {
        Seq::empty()
    }
}

/// The parts of the footer.
pub open spec fn footer_parts(
    include_gst: bool,
    lang: Seq<char>,
    config: EmailConfig,
) -> Seq<Seq<char>> {
    seq![
        markup::FOOTER_BEFORE_TAGLINE@,
        config.app_tagline@,
        markup::FOOTER_BEFORE_ADDR@,
        config.physical_address@,
        markup::FOOTER_BEFORE_GST@,
        tax_line(include_gst, config),
        markup::FOOTER_BEFORE_SUPPORT@,
        config.support_email@,
        markup::FOOTER_BEFORE_SUPPORT_AGAIN@,
        config.support_email@,
        markup::FOOTER_BEFORE_PRIVACY@,
        config.privacy_officer_email@,
        markup::FOOTER_BEFORE_PRIVACY_AGAIN@,
        config.privacy_officer_email@,
        markup::FOOTER_BEFORE_UNSUB@,
        label("footer.unsubscribe"@, lang),
        markup::FOOTER_BEFORE_URL@,
        config.url_prod@,
        markup::FOOTER_BEFORE_PRIV_LABEL@,
        label("footer.privacy"@, lang),
        markup::FOOTER_BEFORE_COPY@,
        config.copyright_text@,
        markup::FOOTER_END@,
    ]
}

/// The footer that the anti-spam law asks for.
pub open spec fn footer(include_gst: bool, lang: Seq<char>, config: EmailConfig) -> Seq<char> {
    joined(footer_parts(include_gst, lang, config))
}

/// The footer that the anti-spam law asks for, with the tax registration
/// where it is asked for.
pub fn casl_footer(include_gst: bool, lang: &str, config: &EmailConfig) -> (r: String)
    ensures
        r@ == footer(include_gst, lang@, *config),
{
    let gst = if include_gst {
        let parts = [
            markup::GST_BEFORE_NUMBER,
            config.gst_hst_number.as_str(),
            markup::GST_END,
        ];
        let line = text::join(&parts);
        assert(views(parts@) =~= tax_parts(*config));
        line
    } else {
        String::new()
    };
    assert(gst@ =~= tax_line(include_gst, *config));
    let parts = [
        markup::FOOTER_BEFORE_TAGLINE,
        config.app_tagline.as_str(),
        markup::FOOTER_BEFORE_ADDR,
        config.physical_address.as_str(),
        markup::FOOTER_BEFORE_GST,
        gst.as_str(),
        markup::FOOTER_BEFORE_SUPPORT,
        config.support_email.as_str(),
        markup::FOOTER_BEFORE_SUPPORT_AGAIN,
        config.support_email.as_str(),
        markup::FOOTER_BEFORE_PRIVACY,
        config.privacy_officer_email.as_str(),
        markup::FOOTER_BEFORE_PRIVACY_AGAIN,
        config.privacy_officer_email.as_str(),
        markup::FOOTER_BEFORE_UNSUB,
        t("footer.unsubscribe", lang),
        markup::FOOTER_BEFORE_URL,
        config.url_prod.as_str(),
        markup::FOOTER_BEFORE_PRIV_LABEL,
        t("footer.privacy", lang),
        markup::FOOTER_BEFORE_COPY,
        config.copyright_text.as_str(),
        markup::FOOTER_END,
    ];
    let r = text::join(&parts);
    assert(views(parts@) =~= footer_parts(include_gst, lang@, *config));
    r
}

/// The parts of the shell that every email stands in.
pub open spec fn shell_parts(
    title: Seq<char>,
    content: Seq<char>,
    include_gst: bool,
    lang: Seq<char>,
    config: EmailConfig,
) -> Seq<Seq<char>> {
    seq![
        markup::SHELL_BEFORE_TITLE@,
        title,
        markup::SHELL_BEFORE_CONTENT@,
        content,
        markup::SHELL_BEFORE_FOOTER@,
        footer(include_gst, lang, config),
        markup::SHELL_END@,
    ]
}

/// The shell that every email stands in.
pub open spec fn shell(
    title: Seq<char>,
    content: Seq<char>,
    include_gst: bool,
    lang: Seq<char>,
    config: EmailConfig,
) -> Seq<char> {
    joined(shell_parts(title, content, include_gst, lang, config))
}

/// Content in the shell that every email stands in.
pub fn email_wrapper(
    title: &str,
    content: &str,
    include_gst: bool,
    lang: &str,
    config: &EmailConfig,
) -> (r: String)
    ensures
        r@ == shell(title@, content@, include_gst, lang@, *config),
{
    let footer = casl_footer(include_gst, lang, config);
    let parts = [
        markup::SHELL_BEFORE_TITLE,
        title,
        markup::SHELL_BEFORE_CONTENT,
        content,
        markup::SHELL_BEFORE_FOOTER,
        footer.as_str(),
        markup::SHELL_END,
    ];
    let r = text::join(&parts);
    assert(views(parts@) =~= shell_parts(title@, content@, include_gst, lang@, *config));
    r
}

/// Every email states the company's address and a way to unsubscribe and to
/// reach it, in the language that it is written in, and where it is asked for
/// the tax registration.
pub proof fn law_email_identifies_sender(
    title: Seq<char>,
    content: Seq<char>,
    include_gst: bool,
    lang: Seq<char>,
    config: EmailConfig,
)
    ensures
        text::occurs(shell(title, content, include_gst, lang, config), config.physical_address@),
        text::occurs(shell(title, content, include_gst, lang, config), config.support_email@),
        text::occurs(
            shell(title, content, include_gst, lang, config),
            config.privacy_officer_email@,
        ),
        text::occurs(
            shell(title, content, include_gst, lang, config),
            label("footer.unsubscribe"@, lang),
        ),
        include_gst ==> text::occurs(
            shell(title, content, include_gst, lang, config),
            config.gst_hst_number@,
        ),
        text::occurs(shell(title, content, include_gst, lang, config), content),
{
    let whole = shell(title, content, include_gst, lang, config);
    let end = footer(include_gst, lang, config);
    let outer = shell_parts(title, content, include_gst, lang, config);
    let inner = footer_parts(include_gst, lang, config);
    text::law_joined_holds_parts(outer, 3);
    text::law_joined_holds_parts(outer, 5);
    text::law_joined_holds_parts(inner, 3);
    text::law_joined_holds_parts(inner, 5);
    text::law_joined_holds_parts(inner, 7);
    text::law_joined_holds_parts(inner, 11);
    text::law_joined_holds_parts(inner, 15);
    text::law_occurs_transitive(whole, end, config.physical_address@);
    text::law_occurs_transitive(whole, end, config.support_email@);
    text::law_occurs_transitive(whole, end, config.privacy_officer_email@);
    text::law_occurs_transitive(whole, end, label("footer.unsubscribe"@, lang));
    if include_gst {
        let line = tax_parts(config);
        text::law_joined_holds_parts(line, 1);
        text::law_occurs_transitive(end, joined(line), config.gst_hst_number@);
        text::law_occurs_transitive(whole, end, config.gst_hst_number@);
    }
}

// -------------------------------------------------------- order confirmation

/// The background of the row at `i`.
pub open spec fn row_colour(i: int) -> Seq<char> {
    if i % 2 == 0 {
        "#f8f9ff"@
    } else {
        "#ffffff"@
    }
}

/// The parts of the row of an order confirmation for the item at `i`.
pub open spec fn confirm_item_parts(item: OrderItem, i: int) -> Seq<Seq<char>> {
    seq![
        markup::CONFIRM_ITEM_BEFORE_BG@,
        row_colour(i),
        markup::CONFIRM_ITEM_BEFORE_NAME@,
        escaped(item.name@),
        markup::CONFIRM_ITEM_BEFORE_QTY@,
        decimal(item.quantity as nat),
        markup::CONFIRM_ITEM_BEFORE_TOTAL@,
        dollars(item.price_cents * item.quantity),
        markup::CONFIRM_ITEM_END@,
    ]
}

/// The row of an order confirmation for the item at `i`.
pub open spec fn confirm_item(item: OrderItem, i: int) -> Seq<char> {
    joined(confirm_item_parts(item, i))
}

/// The rows of an order confirmation.
pub open spec fn confirm_items(items: Seq<OrderItem>) -> Seq<char>
    decreases items.len(),
{
    if items.len() == 0 {
        Seq::empty()
    } else {
        confirm_items(items.drop_last()) + confirm_item(items.last(), items.len() - 1)
    }
}

/// What an item costs as often as it was bought fits in `i64`.
pub open spec fn line_fits(item: OrderItem) -> bool {
    i64::MIN <= item.price_cents * item.quantity <= i64::MAX
}

/// The price of shipping, or that it is free.
pub open spec fn shipping_price(cents: int, lang: Seq<char>) -> Seq<char> {
    if cents == 0 {
        label("price.free"@, lang)
    } else {
        "$"@ + dollars(cents)
    }
}

/// The parts of what an order confirmation says in the language `l`.
pub open spec fn confirm_parts(order: OrderSummary, l: Seq<char>) -> Seq<Seq<char>> {
    let short = short_form(order.order_id@);
    seq![
        markup::CONFIRM_BEFORE_HERO_H@,
        label("confirm.hero_h"@, l),
        markup::CONFIRM_BEFORE_HERO_S@,
        label("confirm.hero_s"@, l),
        markup::CONFIRM_BEFORE_ORDER_LABEL@,
        label("label.order_id"@, l),
        markup::CONFIRM_BEFORE_SHORT_ID@,
        short,
        markup::CONFIRM_BEFORE_COL_PROD@,
        label("col.product"@, l),
        markup::CONFIRM_BEFORE_COL_QTY@,
        label("col.qty"@, l),
        markup::CONFIRM_BEFORE_COL_PRICE@,
        label("col.price"@, l),
        markup::CONFIRM_BEFORE_ITEMS@,
        confirm_items(order.items@),
        markup::CONFIRM_BEFORE_LBL_SUB@,
        label("price.subtotal"@, l),
        markup::CONFIRM_BEFORE_SUBTOTAL@,
        dollars(order.subtotal_cents as int),
        markup::CONFIRM_BEFORE_LBL_SHIP@,
        label("price.shipping"@, l),
        markup::CONFIRM_BEFORE_SHIP_DISP@,
        shipping_price(order.shipping_cost_cents as int, l),
        markup::CONFIRM_BEFORE_LBL_TAX@,
        label("price.taxes"@, l),
        markup::CONFIRM_BEFORE_TAXES@,
        dollars(order.tax_amount_cents as int),
        markup::CONFIRM_BEFORE_LBL_TOTAL@,
        label("price.total"@, l),
        markup::CONFIRM_BEFORE_TOTAL@,
        dollars(order.total_amount_cents as int),
        markup::CONFIRM_END@,
    ]
}

/// The email that confirms an order.
pub open spec fn confirmation(order: OrderSummary, lang: Seq<char>, config: EmailConfig) -> Seq<
    char,
> {
    let l = written_lang(lang);
    shell(label("confirm.hero_h"@, l), joined(confirm_parts(order, l)), true, l, config)
}

/// The rows of an order confirmation.
fn confirm_rows(items: &Vec<OrderItem>) -> (r: String)
    requires
        forall|i: int| 0 <= i < items@.len() ==> line_fits(#[trigger] items@[i]),
    ensures
        r@ == confirm_items(items@),
{
    let mut out = String::new();
    let mut k: usize = 0;
    while k < items.len()
        invariant
            k <= items@.len(),
            forall|i: int| 0 <= i < items@.len() ==> line_fits(#[trigger] items@[i]),
            out@ == confirm_items(items@.take(k as int)),
        decreases items@.len() - k,
    {
        let item = &items[k];
        let bg = if k % 2 == 0 {
            "#f8f9ff"
        } else {
            "#ffffff"
        };
        assert(line_fits(items@[k as int]));
        let line_total: i64 = item.price_cents * item.quantity as i64;
        let name = html_escape(item.name.as_str());
        let qty = text::decimal_text(item.quantity as u128);
        let total = text::dollars_text(line_total as i128);
        let parts = [
            markup::CONFIRM_ITEM_BEFORE_BG,
            bg,
            markup::CONFIRM_ITEM_BEFORE_NAME,
            name.as_str(),
            markup::CONFIRM_ITEM_BEFORE_QTY,
            qty.as_str(),
            markup::CONFIRM_ITEM_BEFORE_TOTAL,
            total.as_str(),
            markup::CONFIRM_ITEM_END,
        ];
        let row = text::join(&parts);
        proof {
            assert(views(parts@) =~= confirm_item_parts(*item, k as int));
            assert(items@.take(k + 1).drop_last() =~= items@.take(k as int));
        }
        out.append(row.as_str());
        k = k + 1;
    }
    assert(items@.take(k as int) =~= items@);
    out
}

/// The email that confirms an order to its buyer, in English or in French.
pub fn order_confirmation_html(
    order: &OrderSummary,
    _buyer_name: &str,
    lang: &str,
    config: &EmailConfig,
) -> (r: String)
    requires
        cuttable(order.order_id@),
        forall|i: int| 0 <= i < order.items@.len() ==> line_fits(#[trigger] order.items@[i]),
    ensures
        r@ == confirmation(*order, lang@, *config),
{
    let l = lang_for(lang);
    let short = short_id(order.order_id.as_str());
    let items = confirm_rows(&order.items);
    let subtotal = text::dollars_text(order.subtotal_cents as i128);
    let taxes = text::dollars_text(order.tax_amount_cents as i128);
    let total = text::dollars_text(order.total_amount_cents as i128);
    let shipping = if order.shipping_cost_cents == 0 {
        t("price.free", l).to_owned()
    } else {
        text::join2("$", text::dollars_text(order.shipping_cost_cents as i128).as_str())
    };
    let parts = [
        markup::CONFIRM_BEFORE_HERO_H,
        t("confirm.hero_h", l),
        markup::CONFIRM_BEFORE_HERO_S,
        t("confirm.hero_s", l),
        markup::CONFIRM_BEFORE_ORDER_LABEL,
        t("label.order_id", l),
        markup::CONFIRM_BEFORE_SHORT_ID,
        short,
        markup::CONFIRM_BEFORE_COL_PROD,
        t("col.product", l),
        markup::CONFIRM_BEFORE_COL_QTY,
        t("col.qty", l),
        markup::CONFIRM_BEFORE_COL_PRICE,
        t("col.price", l),
        markup::CONFIRM_BEFORE_ITEMS,
        items.as_str(),
        markup::CONFIRM_BEFORE_LBL_SUB,
        t("price.subtotal", l),
        markup::CONFIRM_BEFORE_SUBTOTAL,
        subtotal.as_str(),
        markup::CONFIRM_BEFORE_LBL_SHIP,
        t("price.shipping", l),
        markup::CONFIRM_BEFORE_SHIP_DISP,
        shipping.as_str(),
        markup::CONFIRM_BEFORE_LBL_TAX,
        t("price.taxes", l),
        markup::CONFIRM_BEFORE_TAXES,
        taxes.as_str(),
        markup::CONFIRM_BEFORE_LBL_TOTAL,
        t("price.total", l),
        markup::CONFIRM_BEFORE_TOTAL,
        total.as_str(),
        markup::CONFIRM_END,
    ];
    let content = text::join(&parts);
    assert(views(parts@) =~= confirm_parts(*order, l@));
    email_wrapper(t("confirm.hero_h", l), content.as_str(), true, l, config)
}

// -------------------------------------------------------- seller notification

/// What so many units at a price come to, in dollars. Of a price below nothing
/// the sign stays even where there are no units.
pub open spec fn line_price(price_cents: int, quantity: int) -> Seq<char> {
    if price_cents < 0 && quantity == 0 {
        seq!['-'] + dollars(0)
    } else {
        dollars(price_cents * quantity)
    }
}

/// The parts of the row of a seller notification for an item.
pub open spec fn seller_item_parts(item: OrderItem) -> Seq<Seq<char>> {
    seq![
        markup::SELLER_ITEM_BEFORE_NAME@,
        escaped(item.name@),
        markup::SELLER_ITEM_BEFORE_QTY@,
        decimal(item.quantity as nat),
        markup::SELLER_ITEM_BEFORE_PRICE@,
        line_price(item.price_cents as int, item.quantity as int),
        markup::SELLER_ITEM_END@,
    ]
}

/// The row of a seller notification for an item.
pub open spec fn seller_item(item: OrderItem) -> Seq<char> {
    joined(seller_item_parts(item))
}

/// The rows of a seller notification.
pub open spec fn seller_items(items: Seq<OrderItem>) -> Seq<char>
    decreases items.len(),
{
    if items.len() == 0 {
        Seq::empty()
    } else {
        seller_items(items.drop_last()) + seller_item(items.last())
    }
}

/// The parts of what a seller notification says.
pub open spec fn seller_parts(
    order: OrderSummary,
    seller_name: Seq<char>,
    config: EmailConfig,
) -> Seq<Seq<char>> {
    let short = short_form(order.order_id@);
    seq![
        markup::SELLER_BEFORE_ACTION@,
        label("seller.action_banner"@, "en"@),
        markup::SELLER_BEFORE_HERO_H@,
        label("seller.hero_h"@, "en"@),
        markup::SELLER_BEFORE_SELLER@,
        escaped(seller_name),
        markup::SELLER_BEFORE_HERO_S@,
        label("seller.hero_s"@, "en"@),
        markup::SELLER_BEFORE_SHORT_ID@,
        short,
        markup::SELLER_BEFORE_TOTAL@,
        dollars(order.total_amount_cents as int),
        markup::SELLER_BEFORE_ITEMS@,
        seller_items(order.items@),
        markup::SELLER_BEFORE_URL@,
        config.url_prod@,
        markup::SELLER_BEFORE_CTA@,
        label("cta.manage_orders"@, "en"@),
        markup::SELLER_END@,
    ]
}

/// The email that tells a seller of an order.
pub open spec fn seller_notification(
    order: OrderSummary,
    seller_name: Seq<char>,
    config: EmailConfig,
) -> Seq<char> {
    shell(
        label("seller.hero_h"@, "en"@),
        joined(seller_parts(order, seller_name, config)),
        false,
        "en"@,
        config,
    )
}

/// The rows of a seller notification.
fn seller_rows(items: &Vec<OrderItem>) -> (r: String)
    ensures
        r@ == seller_items(items@),
{
    let mut out = String::new();
    let mut k: usize = 0;
    while k < items.len()
        invariant
            k <= items@.len(),
            out@ == seller_items(items@.take(k as int)),
        decreases items@.len() - k,
    {
        let item = &items[k];
        assert(-0x8000_0000_0000_0000 * 0x1_0000_0000 <= item.price_cents * item.quantity
            <= 0x8000_0000_0000_0000 * 0x1_0000_0000) by (nonlinear_arith)
            requires
                -0x8000_0000_0000_0000 <= item.price_cents <= 0x8000_0000_0000_0000,
                0 <= item.quantity <= 0x1_0000_0000,
        ;
        let name = html_escape(item.name.as_str());
        let qty = text::decimal_text(item.quantity as u128);
        let amount = text::dollars_text(item.price_cents as i128 * item.quantity as i128);
        let price = if item.price_cents < 0 && item.quantity == 0 {
            proof {
                reveal_strlit("-");
                assert("-"@ =~= seq!['-']);
            }
            text::join2("-", amount.as_str())
        } else {
            amount
        };
        let parts = [
            markup::SELLER_ITEM_BEFORE_NAME,
            name.as_str(),
            markup::SELLER_ITEM_BEFORE_QTY,
            qty.as_str(),
            markup::SELLER_ITEM_BEFORE_PRICE,
            price.as_str(),
            markup::SELLER_ITEM_END,
        ];
        let row = text::join(&parts);
        proof {
            assert(views(parts@) =~= seller_item_parts(*item));
            assert(items@.take(k + 1).drop_last() =~= items@.take(k as int));
        }
        out.append(row.as_str());
        k = k + 1;
    }
    assert(items@.take(k as int) =~= items@);
    out
}

/// The email that tells a seller of an order, in English.
pub fn seller_notification_html(
    order: &OrderSummary,
    seller_name: &str,
    config: &EmailConfig,
) -> (r: String)
    requires
        cuttable(order.order_id@),
    ensures
        r@ == seller_notification(*order, seller_name@, *config),
{
    let short = short_id(order.order_id.as_str());
    let items = seller_rows(&order.items);
    let seller = html_escape(seller_name);
    let total = text::dollars_text(order.total_amount_cents as i128);
    let parts = [
        markup::SELLER_BEFORE_ACTION,
        t("seller.action_banner", "en"),
        markup::SELLER_BEFORE_HERO_H,
        t("seller.hero_h", "en"),
        markup::SELLER_BEFORE_SELLER,
        seller.as_str(),
        markup::SELLER_BEFORE_HERO_S,
        t("seller.hero_s", "en"),
        markup::SELLER_BEFORE_SHORT_ID,
        short,
        markup::SELLER_BEFORE_TOTAL,
        total.as_str(),
        markup::SELLER_BEFORE_ITEMS,
        items.as_str(),
        markup::SELLER_BEFORE_URL,
        config.url_prod.as_str(),
        markup::SELLER_BEFORE_CTA,
        t("cta.manage_orders", "en"),
        markup::SELLER_END,
    ];
    let content = text::join(&parts);
    assert(views(parts@) =~= seller_parts(*order, seller_name@, *config));
    email_wrapper(t("seller.hero_h", "en"), content.as_str(), false, "en", config)
}

// ------------------------------------------------------------ low-stock alert

/// One unit, or several.
pub open spec fn units_word(n: nat) -> Seq<char> {
    if n == 1 {
        "unit"@
    } else {
        "units"@
    }
}

/// The parts of what a low-stock alert says.
pub open spec fn low_stock_parts(
    product_name: Seq<char>,
    stock: nat,
    config: EmailConfig,
) -> Seq<Seq<char>> {
    seq![
        markup::LOW_STOCK_BEFORE_NAME@,
        escaped(product_name),
        markup::LOW_STOCK_BEFORE_STOCK@,
        decimal(stock),
        markup::LOW_STOCK_BEFORE_UNITS@,
        units_word(stock),
        markup::LOW_STOCK_BEFORE_URL@,
        config.url_prod@,
        markup::LOW_STOCK_BEFORE_ADDR@,
        config.physical_address@,
        markup::LOW_STOCK_END@,
    ]
}

/// The email that tells a seller of a product that runs low.
pub open spec fn low_stock_alert(
    product_name: Seq<char>,
    stock: nat,
    config: EmailConfig,
) -> Seq<char> {
    shell(
        "Low Stock Alert"@,
        joined(low_stock_parts(product_name, stock, config)),
        false,
        "en"@,
        config,
    )
}

/// The email that tells a seller of a product that runs low, in English.
pub fn low_stock_alert_html(
    product_name: &str,
    current_stock: u32,
    config: &EmailConfig,
) -> (r: String)
    ensures
        r@ == low_stock_alert(product_name@, current_stock as nat, *config),
{
    let units = if current_stock == 1 {
        "unit"
    } else {
        "units"
    };
    let name = html_escape(product_name);
    let stock = text::decimal_text(current_stock as u128);
    let parts = [
        markup::LOW_STOCK_BEFORE_NAME,
        name.as_str(),
        markup::LOW_STOCK_BEFORE_STOCK,
        stock.as_str(),
        markup::LOW_STOCK_BEFORE_UNITS,
        units,
        markup::LOW_STOCK_BEFORE_URL,
        config.url_prod.as_str(),
        markup::LOW_STOCK_BEFORE_ADDR,
        config.physical_address.as_str(),
        markup::LOW_STOCK_END,
    ];
    let content = text::join(&parts);
    assert(views(parts@) =~= low_stock_parts(product_name@, current_stock as nat, *config));
    email_wrapper("Low Stock Alert", content.as_str(), false, "en", config)
}

/// A product in a digest of products that run low.
pub struct LowStockLine {
    pub product_name: String,
    /// The units that are left.
    pub stock: u32,
}

/// The parts of a line of a digest.
pub open spec fn digest_line_parts(line: LowStockLine) -> Seq<Seq<char>> {
    seq![
        markup::DIGEST_ITEM_BEFORE_NAME@,
        escaped(line.product_name@),
        markup::DIGEST_ITEM_BEFORE_STOCK@,
        decimal(line.stock as nat),
        markup::DIGEST_ITEM_BEFORE_UNITS@,
        units_word(line.stock as nat),
        markup::DIGEST_ITEM_END@,
    ]
}

/// The lines of a digest.
pub open spec fn digest_lines(lines: Seq<LowStockLine>) -> Seq<char>
    decreases lines.len(),
{
    if lines.len() == 0 {
        Seq::empty()
    } else {
        digest_lines(lines.drop_last()) + joined(digest_line_parts(lines.last()))
    }
}

/// The parts of what a digest of several products says.
pub open spec fn digest_parts(lines: Seq<LowStockLine>, config: EmailConfig) -> Seq<Seq<char>> {
    seq![
        markup::DIGEST_BEFORE_ITEMS@,
        digest_lines(lines),
        markup::DIGEST_BEFORE_URL@,
        config.url_prod@,
        markup::DIGEST_BEFORE_ADDR@,
        config.physical_address@,
        markup::DIGEST_END@,
    ]
}

/// The email that tells a seller of their products that run low: the alert of
/// the product where there is one, and a list where there are more.
pub open spec fn low_stock_digest(lines: Seq<LowStockLine>, config: EmailConfig) -> Seq<char> {
    if lines.len() == 1 {
        low_stock_alert(lines[0].product_name@, lines[0].stock as nat, config)
    } else {
        shell("Low Stock Alert"@, joined(digest_parts(lines, config)), false, "en"@, config)
    }
}

/// The email that tells a seller of their products that run low, in English.
pub fn low_stock_digest_html(lines: &Vec<LowStockLine>, config: &EmailConfig) -> (r: String)
    ensures
        r@ == low_stock_digest(lines@, *config),
{
    if lines.len() == 1 {
        return low_stock_alert_html(lines[0].product_name.as_str(), lines[0].stock, config);
    }
    let mut items = String::new();
    let mut i: usize = 0;
    assert(lines@.take(0) =~= Seq::<LowStockLine>::empty());
    while i < lines.len()
        invariant
            i <= lines@.len(),
            items@ == digest_lines(lines@.take(i as int)),
        decreases lines@.len() - i,
    {
        let line = &lines[i];
        let units = if line.stock == 1 {
            "unit"
        } else {
            "units"
        };
        let name = html_escape(line.product_name.as_str());
        let stock = text::decimal_text(line.stock as u128);
        let parts = [
            markup::DIGEST_ITEM_BEFORE_NAME,
            name.as_str(),
            markup::DIGEST_ITEM_BEFORE_STOCK,
            stock.as_str(),
            markup::DIGEST_ITEM_BEFORE_UNITS,
            units,
            markup::DIGEST_ITEM_END,
        ];
        let row = text::join(&parts);
        assert(views(parts@) =~= digest_line_parts(*line));
        items.append(row.as_str());
        assert(lines@.take(i + 1).drop_last() =~= lines@.take(i as int));
        i = i + 1;
    }
    assert(lines@.take(i as int) =~= lines@);
    let parts = [
        markup::DIGEST_BEFORE_ITEMS,
        items.as_str(),
        markup::DIGEST_BEFORE_URL,
        config.url_prod.as_str(),
        markup::DIGEST_BEFORE_ADDR,
        config.physical_address.as_str(),
        markup::DIGEST_END,
    ];
    let content = text::join(&parts);
    assert(views(parts@) =~= digest_parts(lines@, *config));
    email_wrapper("Low Stock Alert", content.as_str(), false, "en", config)
}

/// A digest names every product that it tells of.
pub proof fn law_digest_names_products(
    lines: Seq<LowStockLine>,
    config: EmailConfig,
    i: int,
)
    requires
        0 <= i < lines.len(),
    ensures
        text::occurs(low_stock_digest(lines, config), escaped(lines[i].product_name@)),
{
    let name = escaped(lines[i].product_name@);
    if lines.len() == 1 {
        let parts = low_stock_parts(lines[0].product_name@, lines[0].stock as nat, config);
        let whole = low_stock_alert(lines[0].product_name@, lines[0].stock as nat, config);
        text::law_joined_holds_parts(parts, 1);
        law_email_identifies_sender("Low Stock Alert"@, joined(parts), false, "en"@, config);
        text::law_occurs_transitive(whole, joined(parts), name);
    } else {
        let parts = digest_parts(lines, config);
        let whole = low_stock_digest(lines, config);
        lemma_digest_lines_hold(lines, i);
        text::law_joined_holds_parts(parts, 1);
        law_email_identifies_sender("Low Stock Alert"@, joined(parts), false, "en"@, config);
        text::law_occurs_transitive(joined(parts), digest_lines(lines), name);
        text::law_occurs_transitive(whole, joined(parts), name);
    }
}

proof fn lemma_digest_lines_hold(lines: Seq<LowStockLine>, i: int)
    requires
        0 <= i < lines.len(),
    ensures
        text::occurs(digest_lines(lines), escaped(lines[i].product_name@)),
    decreases lines.len(),
{
    let name = escaped(lines[i].product_name@);
    let init = digest_lines(lines.drop_last());
    let row = joined(digest_line_parts(lines.last()));
    let both = seq![init, row];
    assert(both.drop_last().drop_last() =~= Seq::<Seq<char>>::empty());
    assert(joined(both) =~= digest_lines(lines)) by {
        assert(both.drop_last() =~= seq![init]);
        reveal_with_fuel(joined, 3);
    }
    if i == lines.len() - 1 {
        text::law_joined_holds_parts(digest_line_parts(lines.last()), 1);
        text::law_joined_holds_parts(both, 1);
        text::law_occurs_transitive(digest_lines(lines), row, name);
    } else {
        lemma_digest_lines_hold(lines.drop_last(), i);
        text::law_joined_holds_parts(both, 0);
        text::law_occurs_transitive(digest_lines(lines), init, name);
    }
}

/// The parts of a short notice.
pub open spec fn notice_parts(body: Seq<char>) -> Seq<Seq<char>> {
    seq![markup::NOTICE_BEFORE_BODY@, escaped(body), markup::NOTICE_END@]
}

/// A short notice as an email.
pub fn notice_html(title: &str, body: &str, lang: &str, config: &EmailConfig) -> (r: String)
    ensures
        r@ == shell(escaped(title@), joined(notice_parts(body@)), false, lang@, *config),
{
    let heading = html_escape(title);
    let said = html_escape(body);
    let parts = [markup::NOTICE_BEFORE_BODY, said.as_str(), markup::NOTICE_END];
    let content = text::join(&parts);
    assert(views(parts@) =~= notice_parts(body@));
    email_wrapper(heading.as_str(), content.as_str(), false, lang, config)
}

// ------------------------------------------------------------- abandoned cart

/// The names of cart items as a list.
pub open spec fn cart_list(items: Seq<CartItem>) -> Seq<char>
    decreases items.len(),
{
    if items.len() == 0 {
        Seq::empty()
    } else {
        cart_list(items.drop_last()) + joined(
            seq!["<li>"@, escaped(items.last().name@), "</li>"@],
        )
    }
}

/// How many cart items are not listed, empty where all are.
pub open spec fn more_label(count: int, l: Seq<char>) -> Seq<char> {
    if count <= 3 {
        Seq::empty()
    } else if l == "fr"@ {
        joined(seq![" (et "@, decimal((count - 3) as nat), " de plus)"@])
    } else {
        joined(seq![" (and "@, decimal((count - 3) as nat), " more)"@])
    }
}

/// The parts of the line on the cart items that are not listed.
pub open spec fn more_parts(more: Seq<char>) -> Seq<Seq<char>> {
    seq![
        markup::CART_MORE_BEFORE_MORE_LABEL@,
        more,
        markup::CART_MORE_END@,
    ]
}

/// The line on the cart items that are not listed.
pub open spec fn more_line(count: int, l: Seq<char>) -> Seq<char> {
    if count <= 3 {
        Seq::empty()
    } else {
        joined(more_parts(more_label(count, l)))
    }
}

/// The greeting of a buyer.
pub open spec fn greeting(buyer_name: Seq<char>, l: Seq<char>) -> Seq<char> {
    wording(l, "Hi "@, "Bonjour "@) + escaped(buyer_name)
}

/// The parts of what a reminder of a cart says in the language `l`.
pub open spec fn cart_parts(
    items: Seq<CartItem>,
    buyer_name: Seq<char>,
    l: Seq<char>,
    config: EmailConfig,
) -> Seq<Seq<char>> {
    seq![
        markup::CART_BEFORE_HERO_H@,
        label("cart.hero_h"@, l),
        markup::CART_BEFORE_HI@,
        greeting(buyer_name, l),
        markup::CART_BEFORE_HERO_S@,
        label("cart.hero_s"@, l),
        markup::CART_BEFORE_LIST@,
        cart_list(first_n(items, 3)),
        markup::CART_BEFORE_MORE@,
        more_line(items.len() as int, l),
        markup::CART_BEFORE_URL@,
        config.url_prod@,
        markup::CART_BEFORE_CTA@,
        label("cart.cta"@, l),
        markup::CART_END@,
    ]
}

/// The email that reminds a buyer of their cart.
pub open spec fn cart_reminder(
    items: Seq<CartItem>,
    buyer_name: Seq<char>,
    lang: Seq<char>,
    config: EmailConfig,
) -> Seq<char> {
    let l = written_lang(lang);
    shell(
        label("cart.hero_h"@, l),
        joined(cart_parts(items, buyer_name, l, config)),
        false,
        l,
        config,
    )
}

/// The names of the first three cart items as a list.
fn cart_rows(items: &[CartItem]) -> (r: String)
    ensures
        r@ == cart_list(first_n(items@, 3)),
{
    let mut out = String::new();
    let mut k: usize = 0;
    while k < items.len() && k < 3
        invariant
            k <= items@.len(),
            k <= 3,
            out@ == cart_list(items@.take(k as int)),
        decreases 3 - k,
    {
        let name = html_escape(items[k].name.as_str());
        let parts = ["<li>", name.as_str(), "</li>"];
        let row = text::join(&parts);
        proof {
            assert(views(parts@) =~= seq!["<li>"@, escaped(items@[k as int].name@), "</li>"@]);
            assert(items@.take(k + 1).drop_last() =~= items@.take(k as int));
        }
        out.append(row.as_str());
        k = k + 1;
    }
    proof {
        if items@.len() <= 3 {
            assert(items@.take(k as int) =~= items@);
        }
    }
    out
}

/// The line on the cart items that are not listed.
fn more_text(count: usize, l: &str) -> (r: String)
    ensures
        r@ == more_line(count as int, l@),
{
    if count <= 3 {
        return String::new();
    }
    let extra = text::decimal_text((count - 3) as u128);
    let head = pick(l, " (and ", " (et ");
    let tail = pick(l, " more)", " de plus)");
    let label_parts = [head, extra.as_str(), tail];
    let more = text::join(&label_parts);
    assert(views(label_parts@) =~= seq![head@, decimal((count - 3) as nat), tail@]);
    let parts = [
        markup::CART_MORE_BEFORE_MORE_LABEL,
        more.as_str(),
        markup::CART_MORE_END,
    ];
    let r = text::join(&parts);
    assert(views(parts@) =~= more_parts(more@));
    r
}

/// The email that reminds a buyer of their cart, in English or in French.
pub fn abandoned_cart_html(
    items: &[CartItem],
    buyer_name: &str,
    lang: &str,
    config: &EmailConfig,
) -> (r: String)
    ensures
        r@ == cart_reminder(items@, buyer_name@, lang@, *config),
{
    let l = lang_for(lang);
    let list = cart_rows(items);
    let more = more_text(items.len(), l);
    let hi = text::join2(pick(l, "Hi ", "Bonjour "), html_escape(buyer_name).as_str());
    let parts = [
        markup::CART_BEFORE_HERO_H,
        t("cart.hero_h", l),
        markup::CART_BEFORE_HI,
        hi.as_str(),
        markup::CART_BEFORE_HERO_S,
        t("cart.hero_s", l),
        markup::CART_BEFORE_LIST,
        list.as_str(),
        markup::CART_BEFORE_MORE,
        more.as_str(),
        markup::CART_BEFORE_URL,
        config.url_prod.as_str(),
        markup::CART_BEFORE_CTA,
        t("cart.cta", l),
        markup::CART_END,
    ];
    let content = text::join(&parts);
    assert(views(parts@) =~= cart_parts(items@, buyer_name@, l@, *config));
    email_wrapper(t("cart.hero_h", l), content.as_str(), false, l, config)
}

// -------------------------------------------------------------------- sending

/// How sending an email can fail.
#[derive(Debug, Clone)]
pub enum EmailError {
    /// The mail service answered with an error.
    MailjetApi { status: u16, body: String },
    /// The mail service could not be reached.
    Http(String),
    /// No credentials for the mail service are configured.
    MissingCredentials,
}

impl EmailError {
    /// The message of an error.
    pub open spec fn text(&self) -> Seq<char> {
        match self {
            EmailError::MailjetApi { status, body } => joined(
                seq!["Mailjet API error (status "@, decimal(*status as nat), "): "@, body@],
            ),
            EmailError::Http(m) => "HTTP request failed: "@ + m@,
            EmailError::MissingCredentials => "Missing credentials"@,
        }
    }

    /// The message of an error.
    pub fn message(&self) -> (r: String)
        ensures
            r@ == self.text(),
    {
        match self {
            EmailError::MailjetApi { status, body } => {
                let number = text::decimal_text(*status as u128);
                let parts = ["Mailjet API error (status ", number.as_str(), "): ", body.as_str()];
                let r = text::join(&parts);
                assert(views(parts@) =~= seq![
                    "Mailjet API error (status "@,
                    decimal(*status as nat),
                    "): "@,
                    body@,
                ]);
                r
            },
            EmailError::Http(m) => text::join2("HTTP request failed: ", m.as_str()),
            EmailError::MissingCredentials => "Missing credentials".to_owned(),
        }
    }
}

/// The character of a base64 digit.
pub open spec fn base64_digit(n: int) -> char {
    if n < 26 {
        (65 + n) as u8 as char
    } else if n < 52 {
        (71 + n) as u8 as char
    } else if n < 62 {
        (n - 4) as u8 as char
    } else if n == 62 {
        '+'
    } else {
        '/'
    }
}

/// The byte at `i`, zero past the end.
pub open spec fn byte_or_zero(bytes: Seq<u8>, i: int) -> int {
    if i < bytes.len() {
        bytes[i] as int
    } else {
        0
    }
}

/// Bytes in base64: four digits for each three bytes, the last group padded.
pub open spec fn base64(bytes: Seq<u8>) -> Seq<char> {
    Seq::new(
        4 * ((bytes.len() + 2) / 3),
        |i: int|
            {
                let k = i / 4 * 3;
                let group = byte_or_zero(bytes, k) * 65536 + byte_or_zero(bytes, k + 1) * 256
                    + byte_or_zero(bytes, k + 2);
                if i % 4 == 0 {
                    base64_digit(group / 262144)
                } else if i % 4 == 1 {
                    base64_digit(group / 4096 % 64)
                } else if i % 4 == 2 {
                    if k + 1 < bytes.len() {
                        base64_digit(group / 64 % 64)
                    } else {
                        '='
                    }
                } else if k + 2 < bytes.len() {
                    base64_digit(group % 64)
                } else {
                    '='
                }
            },
    )
}

/// `base64`'s standard engine on the bytes of a text: base64 with the usual
/// alphabet and padding.
#[verifier::external_body]
fn base64_encode(s: &str) -> (r: String)
    requires
        encode_utf8(s@).len() <= usize::MAX / 4,
    ensures
        r@ == base64(encode_utf8(s@)),
{
    base64::Engine::encode(&base64::engine::general_purpose::STANDARD, s)
}

/// What is sent to the mail service.
#[derive(Debug)]
pub struct MailRequest {
    /// The value of the `Authorization` header.
    pub authorization: String,
    pub from_email: String,
    pub from_name: String,
    pub to_email: String,
    pub subject: String,
    pub html_body: String,
}

/// The request that sends an email, from the company to `to_email`. The encoded
/// keys must fit in memory.
pub fn mail_request(
    api_key: &str,
    secret_key: &str,
    to_email: &str,
    subject: &str,
    html_body: &str,
    config: &EmailConfig,
) -> (r: Result<MailRequest, EmailError>)
    requires
        encode_utf8(api_key@ + ":"@ + secret_key@).len() <= usize::MAX / 4,
    ensures
        match r {
            Ok(m) => {
                &&& api_key@.len() > 0 && secret_key@.len() > 0
                &&& m.authorization@ == "Basic "@ + base64(
                    encode_utf8(api_key@ + ":"@ + secret_key@),
                )
                &&& m.from_email@ == config.support_email@
                &&& m.from_name@ == config.sender_name@
                &&& m.to_email@ == to_email@
                &&& m.subject@ == subject@
                &&& m.html_body@ == html_body@
            },
            Err(e) => (api_key@.len() == 0 || secret_key@.len() == 0) && e
                == EmailError::MissingCredentials,
        },
{
    if api_key.is_empty() || secret_key.is_empty() {
        return Err(EmailError::MissingCredentials);
    }
    let head = text::join2(api_key, ":");
    let credentials = text::join2(head.as_str(), secret_key);
    let encoded = base64_encode(credentials.as_str());
    Ok(
        MailRequest {
            authorization: text::join2("Basic ", encoded.as_str()),
            from_email: config.support_email.clone(),
            from_name: config.sender_name.clone(),
            to_email: to_email.to_owned(),
            subject: subject.to_owned(),
            html_body: html_body.to_owned(),
        },
    )
}

/// What an answer of the mail service with this status and body means.
pub fn mail_outcome(status: u16, body: String) -> (r: Result<(), EmailError>)
    ensures
        match r {
            Ok(()) => status < 400,
            Err(e) => status >= 400 && e == (EmailError::MailjetApi { status, body }),
        },
{
    if status >= 400 {
        Err(EmailError::MailjetApi { status, body })
    } else {
        Ok(())
    }
}

// ------------------------------------------------------------------------ laws

/// Escaping writes each character by itself: the four special ones by their
/// names, any other as it is.
pub proof fn law_escaped_by_character(s: Seq<char>, c: char)
    ensures
        escaped(s.push(c)) == escaped(s) + (if c == '&' {
            "&amp;"@
        } else if c == '<' {
            "&lt;"@
        } else if c == '>' {
            "&gt;"@
        } else if c == '"' {
            "&quot;"@
        } else {
            seq![c]
        }),
        escaped(Seq::empty()).len() == 0,
{
    assert(s.push(c).drop_last() =~= s);
}

/// An email stands in its shell: three parts that follow each other in its
/// content follow each other in the email.
proof fn lemma_shell_holds(
    title: Seq<char>,
    parts: Seq<Seq<char>>,
    include_gst: bool,
    lang: Seq<char>,
    config: EmailConfig,
    i: int,
)
    requires
        0 <= i,
        i + 3 <= parts.len(),
    ensures
        text::occurs(
            shell(title, joined(parts), include_gst, lang, config),
            parts[i] + parts[i + 1] + parts[i + 2],
        ),
{
    text::law_joined_holds_runs(parts, i, i + 3);
    assert(parts.subrange(i, i + 3) =~= seq![parts[i], parts[i + 1], parts[i + 2]]);
    text::lemma_joined_three(parts[i], parts[i + 1], parts[i + 2]);
    law_email_identifies_sender(title, joined(parts), include_gst, lang, config);
    text::law_occurs_transitive(
        shell(title, joined(parts), include_gst, lang, config),
        joined(parts),
        parts[i] + parts[i + 1] + parts[i + 2],
    );
}

/// A confirmation states the order's subtotal, taxes and total, each behind
/// its own label, in French for `fr` and in English for any other language;
/// and shipping by its price, or as free where it costs nothing.
pub proof fn law_confirmation_states_amounts(
    order: OrderSummary,
    lang: Seq<char>,
    l: Seq<char>,
    config: EmailConfig,
)
    requires
        lang == "fr"@ ==> l == "fr"@,
        lang != "fr"@ ==> l == "en"@,
    ensures
        text::occurs(
            confirmation(order, lang, config),
            label("price.subtotal"@, l) + markup::CONFIRM_BEFORE_SUBTOTAL@ + dollars(
                order.subtotal_cents as int,
            ),
        ),
        text::occurs(
            confirmation(order, lang, config),
            label("price.taxes"@, l) + markup::CONFIRM_BEFORE_TAXES@ + dollars(
                order.tax_amount_cents as int,
            ),
        ),
        text::occurs(
            confirmation(order, lang, config),
            label("price.total"@, l) + markup::CONFIRM_BEFORE_TOTAL@ + dollars(
                order.total_amount_cents as int,
            ),
        ),
        order.shipping_cost_cents == 0 ==> text::occurs(
            confirmation(order, lang, config),
            label("price.shipping"@, l) + markup::CONFIRM_BEFORE_SHIP_DISP@ + label(
                "price.free"@,
                l,
            ),
        ),
        order.shipping_cost_cents != 0 ==> text::occurs(
            confirmation(order, lang, config),
            label("price.shipping"@, l) + markup::CONFIRM_BEFORE_SHIP_DISP@ + ("$"@ + dollars(
                order.shipping_cost_cents as int,
            )),
        ),
{
    let parts = confirm_parts(order, l);
    let title = label("confirm.hero_h"@, l);
    lemma_shell_holds(title, parts, true, l, config, 17);
    lemma_shell_holds(title, parts, true, l, config, 21);
    lemma_shell_holds(title, parts, true, l, config, 25);
    lemma_shell_holds(title, parts, true, l, config, 29);
}

/// A row of a confirmation gives the item's name, how often it was bought, and
/// its price as often as that; the rows follow the items.
pub proof fn law_confirmation_rows(items: Seq<OrderItem>, item: OrderItem)
    ensures
        confirm_items(items.push(item)) == confirm_items(items) + confirm_item(
            item,
            items.len() as int,
        ),
        confirm_items(Seq::empty()).len() == 0,
        text::occurs(
            confirm_item(item, items.len() as int),
            escaped(item.name@) + markup::CONFIRM_ITEM_BEFORE_QTY@ + decimal(item.quantity as nat),
        ),
        text::occurs(
            confirm_item(item, items.len() as int),
            decimal(item.quantity as nat) + markup::CONFIRM_ITEM_BEFORE_TOTAL@ + dollars(
                item.price_cents * item.quantity,
            ),
        ),
{
    assert(items.push(item).drop_last() =~= items);
    let parts = confirm_item_parts(item, items.len() as int);
    text::law_joined_holds_runs(parts, 3, 6);
    assert(parts.subrange(3, 6) =~= seq![parts[3], parts[4], parts[5]]);
    text::lemma_joined_three(parts[3], parts[4], parts[5]);
    text::law_joined_holds_runs(parts, 5, 8);
    assert(parts.subrange(5, 8) =~= seq![parts[5], parts[6], parts[7]]);
    text::lemma_joined_three(parts[5], parts[6], parts[7]);
}

/// A seller notification states the order's number with what the seller's part
/// comes to; its rows follow the items, with name, quantity and price as often
/// as that.
pub proof fn law_seller_notification_states(
    order: OrderSummary,
    seller: Seq<char>,
    items: Seq<OrderItem>,
    item: OrderItem,
    config: EmailConfig,
)
    ensures
        text::occurs(
            seller_notification(order, seller, config),
            short_form(order.order_id@) + markup::SELLER_BEFORE_TOTAL@ + dollars(
                order.total_amount_cents as int,
            ),
        ),
        seller_items(items.push(item)) == seller_items(items) + seller_item(item),
        seller_items(Seq::empty()).len() == 0,
        text::occurs(
            seller_item(item),
            escaped(item.name@) + markup::SELLER_ITEM_BEFORE_QTY@ + decimal(item.quantity as nat),
        ),
        item.quantity > 0 || item.price_cents >= 0 ==> text::occurs(
            seller_item(item),
            decimal(item.quantity as nat) + markup::SELLER_ITEM_BEFORE_PRICE@ + dollars(
                item.price_cents * item.quantity,
            ),
        ),
{
    lemma_shell_holds(
        label("seller.hero_h"@, "en"@),
        seller_parts(order, seller, config),
        false,
        "en"@,
        config,
        9,
    );
    assert(items.push(item).drop_last() =~= items);
    let parts = seller_item_parts(item);
    text::law_joined_holds_runs(parts, 1, 4);
    assert(parts.subrange(1, 4) =~= seq![parts[1], parts[2], parts[3]]);
    text::lemma_joined_three(parts[1], parts[2], parts[3]);
    text::law_joined_holds_runs(parts, 3, 6);
    assert(parts.subrange(3, 6) =~= seq![parts[3], parts[4], parts[5]]);
    text::lemma_joined_three(parts[3], parts[4], parts[5]);
}

/// A low-stock alert names the product and the units that are left of it, one
/// unit or several.
pub proof fn law_alert_states_stock(product_name: Seq<char>, stock: nat, config: EmailConfig)
    ensures
        text::occurs(
            low_stock_alert(product_name, stock, config),
            escaped(product_name) + markup::LOW_STOCK_BEFORE_STOCK@ + decimal(stock),
        ),
        stock == 1 ==> text::occurs(
            low_stock_alert(product_name, stock, config),
            decimal(stock) + markup::LOW_STOCK_BEFORE_UNITS@ + "unit"@,
        ),
        stock != 1 ==> text::occurs(
            low_stock_alert(product_name, stock, config),
            decimal(stock) + markup::LOW_STOCK_BEFORE_UNITS@ + "units"@,
        ),
{
    let parts = low_stock_parts(product_name, stock, config);
    lemma_shell_holds("Low Stock Alert"@, parts, false, "en"@, config, 1);
    lemma_shell_holds("Low Stock Alert"@, parts, false, "en"@, config, 3);
}

/// A reminder of a cart lists its first three items by name, and says how many
/// more there are where there are more.
pub proof fn law_cart_reminder_lists(items: Seq<CartItem>, item: CartItem, count: int)
    ensures
        cart_list(items.push(item)) == cart_list(items) + joined(
            seq!["<li>"@, escaped(item.name@), "</li>"@],
        ),
        cart_list(Seq::empty()).len() == 0,
        count <= 3 ==> more_label(count, "en"@).len() == 0 && more_label(count, "fr"@).len() == 0,
        count > 3 ==> more_label(count, "en"@) == joined(
            seq![" (and "@, decimal((count - 3) as nat), " more)"@],
        ),
        count > 3 ==> more_label(count, "fr"@) == joined(
            seq![" (et "@, decimal((count - 3) as nat), " de plus)"@],
        ),
{
    reveal_strlit("en");
    reveal_strlit("fr");
    assert("en"@[0] != "fr"@[0]);
    assert(items.push(item).drop_last() =~= items);
}

/// An order number is shown whole where it has no more than eight bytes, and
/// by its first eight otherwise.
pub proof fn law_short_number(order_id: Seq<char>)
    ensures
        encode_utf8(order_id).len() <= 8 ==> short_form(order_id) == order_id,
        encode_utf8(order_id).len() > 8 ==> short_form(order_id) == decode_utf8(
            encode_utf8(order_id).take(8),
        ),
{
}

} // verus!
