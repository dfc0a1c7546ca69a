//! The fixed pieces of the email markup: each constant is what stands before
//! the value that it is named after.
use vstd::prelude::*;

verus! {

// The tax registration line.
pub const GST_BEFORE_NUMBER: &'static str = r#"<p style="margin:0 0 8px 0;font-size:11px;color:rgba(255,255,255,0.35);">GST/HST Registration: "#;

pub const GST_END: &'static str = "</p>";

// The footer.
pub const FOOTER_BEFORE_TAGLINE: &'static str = r##"<tr><td bgcolor="#1a1a2e" style="background-color:#1a1a2e;padding:32px 40px;text-align:center;">
            <div style="margin-bottom:16px;">
                <span style="font-size:12px;font-weight:700;letter-spacing:3px;text-transform:uppercase;color:rgba(255,255,255,0.5);">O R I G N A</span>
            </div>
            <p style="margin:0 0 8px 0;font-size:13px;color:rgba(255,255,255,0.5);">"##;

pub const FOOTER_BEFORE_ADDR: &'static str = r#"</p>
            <p style="margin:0 0 8px 0;font-size:12px;color:rgba(255,255,255,0.35);">"#;

pub const FOOTER_BEFORE_GST: &'static str = "</p>
            ";

pub const FOOTER_BEFORE_SUPPORT: &'static str = r#"
            <p style="margin:0 0 8px 0;font-size:12px;color:rgba(255,255,255,0.35);">
                Questions? <a href="mailto:"#;

pub const FOOTER_BEFORE_SUPPORT_AGAIN: &'static str = r#"" style="color:#667EEA;text-decoration:none;">"#;

pub const FOOTER_BEFORE_PRIVACY: &'static str = r#"</a>
                 | Privacy: <a href="mailto:"#;

pub const FOOTER_BEFORE_PRIVACY_AGAIN: &'static str = r#"" style="color:#667EEA;text-decoration:none;">"#;

pub const FOOTER_BEFORE_UNSUB: &'static str = r##"</a>
            </p>
            <p style="margin:0 0 12px 0;font-size:12px;color:rgba(255,255,255,0.35);">
                <a href="#" style="color:#667EEA;text-decoration:underline;">"##;

pub const FOOTER_BEFORE_URL: &'static str = r#"</a>
                 | <a href=""#;

pub const FOOTER_BEFORE_PRIV_LABEL: &'static str = r#"/privacy-policy" style="color:#667EEA;text-decoration:none;">"#;

pub const FOOTER_BEFORE_COPY: &'static str = r#"</a>
            </p>
            <div style="border-top:1px solid rgba(255,255,255,0.1);padding-top:16px;">
                <p style="margin:0;font-size:11px;color:rgba(255,255,255,0.25);">"#;

pub const FOOTER_END: &'static str = "</p>
            </div>
        </td></tr>";

// The shell.
pub const SHELL_BEFORE_TITLE: &'static str = r#"<!DOCTYPE html><html><head><meta charset="utf-8"><title>"#;

pub const SHELL_BEFORE_CONTENT: &'static str = r#"</title></head>
<body style="margin:0;padding:0;background:#f4f4f8;font-family:Arial,Helvetica,sans-serif;">
<table width="100%" cellpadding="0" cellspacing="0" style="max-width:640px;margin:0 auto;">
"#;

pub const SHELL_BEFORE_FOOTER: &'static str = "
";

pub const SHELL_END: &'static str = "
</table></body></html>";

// An item of an order confirmation.
pub const CONFIRM_ITEM_BEFORE_BG: &'static str = r#"<tr style="background:"#;

pub const CONFIRM_ITEM_BEFORE_NAME: &'static str = r#";">
                <td style="padding:14px 16px;font-size:14px;color:#1a1a2e;font-weight:600;">"#;

pub const CONFIRM_ITEM_BEFORE_QTY: &'static str = r#"</td>
                <td style="padding:14px 16px;text-align:center;font-size:14px;color:#555;">&times;"#;

pub const CONFIRM_ITEM_BEFORE_TOTAL: &'static str = r#"</td>
                <td style="padding:14px 16px;text-align:right;font-size:14px;font-weight:600;color:#1a1a2e;">$"#;

pub const CONFIRM_ITEM_END: &'static str = "</td>
            </tr>";

// An order confirmation.
pub const CONFIRM_BEFORE_HERO_H: &'static str = r#"<tr><td style="padding:32px 40px 24px 40px;">
            <h1 style="color:#1a1a2e;margin-top:0;font-size:22px;">"#;

pub const CONFIRM_BEFORE_HERO_S: &'static str = r#"</h1>
            <p style="color:#555;font-size:15px;">"#;

pub const CONFIRM_BEFORE_ORDER_LABEL: &'static str = r#"</p>
            <p style="color:#888;font-size:13px;">"#;

pub const CONFIRM_BEFORE_SHORT_ID: &'static str = " #";

pub const CONFIRM_BEFORE_COL_PROD: &'static str = r#"</p>
        </td></tr>
        <tr><td style="padding:0 40px;">
            <table width="100%" cellpadding="0" cellspacing="0" style="border-collapse:collapse;">
                <tr style="background:#667EEA;">
                    <td style="padding:10px 16px;color:#fff;font-size:13px;font-weight:700;">"#;

pub const CONFIRM_BEFORE_COL_QTY: &'static str = r#"</td>
                    <td style="padding:10px 16px;color:#fff;font-size:13px;font-weight:700;text-align:center;">"#;

pub const CONFIRM_BEFORE_COL_PRICE: &'static str = r#"</td>
                    <td style="padding:10px 16px;color:#fff;font-size:13px;font-weight:700;text-align:right;">"#;

pub const CONFIRM_BEFORE_ITEMS: &'static str = "</td>
                </tr>
                ";

pub const CONFIRM_BEFORE_LBL_SUB: &'static str = r#"
            </table>
        </td></tr>
        <tr><td style="padding:24px 40px;">
            <table width="100%" style="font-size:14px;color:#333;">
                <tr><td>"#;

pub const CONFIRM_BEFORE_SUBTOTAL: &'static str = r#"</td><td style="text-align:right;">$"#;

pub const CONFIRM_BEFORE_LBL_SHIP: &'static str = "</td></tr>
                <tr><td>";

pub const CONFIRM_BEFORE_SHIP_DISP: &'static str = r#"</td><td style="text-align:right;">"#;

pub const CONFIRM_BEFORE_LBL_TAX: &'static str = "</td></tr>
                <tr><td>";

pub const CONFIRM_BEFORE_TAXES: &'static str = r#"</td><td style="text-align:right;">$"#;

pub const CONFIRM_BEFORE_LBL_TOTAL: &'static str = r#"</td></tr>
                <tr style="font-weight:700;font-size:16px;">
                    <td style="padding-top:12px;border-top:2px solid #667EEA;">"#;

pub const CONFIRM_BEFORE_TOTAL: &'static str = r#"</td>
                    <td style="padding-top:12px;border-top:2px solid #667EEA;text-align:right;">$"#;

pub const CONFIRM_END: &'static str = "</td>
                </tr>
            </table>
        </td></tr>";

// An item of a seller notification.
pub const SELLER_ITEM_BEFORE_NAME: &'static str = r#"<tr><td style="padding:8px 0;border-bottom:1px solid #eee;">"#;

pub const SELLER_ITEM_BEFORE_QTY: &'static str = r#"</td>
               <td style="padding:8px 0;text-align:center;border-bottom:1px solid #eee;">&times;"#;

pub const SELLER_ITEM_BEFORE_PRICE: &'static str = r#"</td>
               <td style="padding:8px 0;text-align:right;border-bottom:1px solid #eee;">$"#;

pub const SELLER_ITEM_END: &'static str = "</td></tr>";

// A seller notification.
pub const SELLER_BEFORE_ACTION: &'static str = r#"<tr><td style="background:#FFF3CD;padding:14px 40px;text-align:center;font-weight:700;color:#856404;font-size:14px;">
            "#;

pub const SELLER_BEFORE_HERO_H: &'static str = r#"
        </td></tr>
        <tr><td style="padding:32px 40px;">
            <h1 style="color:#1a1a2e;margin-top:0;font-size:22px;">"#;

pub const SELLER_BEFORE_SELLER: &'static str = r#"</h1>
            <p style="color:#555;font-size:15px;">Hi "#;

pub const SELLER_BEFORE_HERO_S: &'static str = ", ";

pub const SELLER_BEFORE_SHORT_ID: &'static str = r#"</p>
            <p style="color:#1a1a2e;font-size:16px;font-weight:700;">Order #"#;

pub const SELLER_BEFORE_TOTAL: &'static str = " — $";

pub const SELLER_BEFORE_ITEMS: &'static str = r#" CAD</p>
            <table width="100%" style="font-size:14px;margin-top:16px;">
                "#;

pub const SELLER_BEFORE_URL: &'static str = r#"
            </table>
            <div style="margin-top:24px;text-align:center;">
                <a href=""#;

pub const SELLER_BEFORE_CTA: &'static str = r#"/seller/orders" style="background:linear-gradient(135deg,#667EEA,#764BA2);color:#fff;padding:12px 28px;border-radius:8px;text-decoration:none;font-weight:700;display:inline-block;">
                    "#;

pub const SELLER_END: &'static str = "
                </a>
            </div>
        </td></tr>";

// A low-stock alert.
pub const LOW_STOCK_BEFORE_NAME: &'static str = r#"<tr><td style="padding:32px 40px;">
            <h2 style="color:#E53E3E;">Low Stock Alert</h2>
            <p>Your product <strong>"#;

pub const LOW_STOCK_BEFORE_STOCK: &'static str = r#"</strong> is running low on stock.</p>
            <table style="width:100%;border-collapse:collapse;margin:16px 0;">
                <tr><td style="padding:6px 0;color:#666;width:160px;">Current stock</td>
                    <td style="font-weight:bold;color:#E53E3E;">"#;

pub const LOW_STOCK_BEFORE_UNITS: &'static str = " ";

pub const LOW_STOCK_BEFORE_URL: &'static str = r#" remaining</td></tr>
            </table>
            <p>Please restock soon to avoid missing sales.</p>
            <div style="margin-top:20px;">
                <a href=""#;

pub const LOW_STOCK_BEFORE_ADDR: &'static str = r#"/seller/products" style="background:#5B30F6;color:#fff;padding:10px 22px;border-radius:6px;text-decoration:none;font-weight:bold;">
                    Manage Inventory
                </a>
            </div>
            <p style="color:#999;font-size:12px;margin-top:20px;">
                You are receiving this because you enabled low stock alerts for this product.<br>
                Origna Ventures Inc. — "#;

pub const LOW_STOCK_END: &'static str = "
            </p>
        </td></tr>";

// A digest of several products that run low.
pub const DIGEST_BEFORE_ITEMS: &'static str = r#"<tr><td style="padding:32px 40px;">
            <h2 style="color:#E53E3E;">Low Stock Alert</h2>
            <p>These products are running low on stock.</p>
            <table style="width:100%;border-collapse:collapse;margin:16px 0;">"#;

pub const DIGEST_ITEM_BEFORE_NAME: &'static str = r#"
                <tr><td style="padding:6px 0;color:#666;"><strong>"#;

pub const DIGEST_ITEM_BEFORE_STOCK: &'static str = r#"</strong></td>
                    <td style="font-weight:bold;color:#E53E3E;">"#;

pub const DIGEST_ITEM_BEFORE_UNITS: &'static str = " ";

pub const DIGEST_ITEM_END: &'static str = " remaining</td></tr>";

pub const DIGEST_BEFORE_URL: &'static str = r#"
            </table>
            <p>Please restock soon to avoid missing sales.</p>
            <div style="margin-top:20px;">
                <a href=""#;

pub const DIGEST_BEFORE_ADDR: &'static str = r#"/seller/products" style="background:#5B30F6;color:#fff;padding:10px 22px;border-radius:6px;text-decoration:none;font-weight:bold;">
                    Manage Inventory
                </a>
            </div>
            <p style="color:#999;font-size:12px;margin-top:20px;">
                You are receiving this because you enabled low stock alerts for these products.<br>
                Origna Ventures Inc. — "#;

pub const DIGEST_END: &'static str = "
            </p>
        </td></tr>";

// A short notice.
pub const NOTICE_BEFORE_BODY: &'static str = r#"<tr><td style="padding:32px 40px;">
            <p style="color:#555;font-size:15px;">"#;

pub const NOTICE_END: &'static str = "</p>
        </td></tr>";

// An abandoned-cart reminder.
pub const CART_BEFORE_HERO_H: &'static str = r#"<tr><td style="padding:32px 40px 24px 40px;">
            <h2 style="color:#1a1a2e;margin-top:0;font-size:20px;">"#;

pub const CART_BEFORE_HI: &'static str = r#"</h2>
            <p style="color:#555;font-size:15px;">"#;

pub const CART_BEFORE_HERO_S: &'static str = r#",</p>
            <p style="color:#555;font-size:15px;">"#;

pub const CART_BEFORE_LIST: &'static str = r#"</p>
            <ul style="margin:16px 0;padding-left:24px;color:#1a1a2e;font-weight:500;line-height:1.6;">
                "#;

pub const CART_BEFORE_MORE: &'static str = "
            </ul>
            ";

pub const CART_BEFORE_URL: &'static str = r#"
            <div style="margin-top:32px;text-align:center;">
                <a href=""#;

pub const CART_BEFORE_CTA: &'static str = r#"/cart" style="background:linear-gradient(135deg,#667EEA,#764BA2);color:#fff;padding:12px 28px;border-radius:8px;text-decoration:none;font-weight:700;display:inline-block;">
                    "#;

pub const CART_END: &'static str = "
                </a>
            </div>
        </td></tr>";

// The line on further cart items.
pub const CART_MORE_BEFORE_MORE_LABEL: &'static str = r#"<p style="color:#888;font-size:13px;font-style:italic;">"#;

pub const CART_MORE_END: &'static str = "</p>";

// A shipping notification.
pub const SHIPPING_BEFORE_HERO: &'static str = r#"<tr><td style="padding:32px 40px 24px 40px;">
            <h1 style="color:#1a1a2e;margin-top:0;font-size:22px;">"#;

pub const SHIPPING_BEFORE_BUYER: &'static str = r#"</h1>
            <p style="color:#555;font-size:15px;">"#;

pub const SHIPPING_BEFORE_TRACKING_LINE: &'static str = r#",</p>
            <p style="color:#555;font-size:15px;">"#;

pub const SHIPPING_BEFORE_ORDER_LABEL: &'static str = r#"</p>
            <table width="100%" cellpadding="0" cellspacing="0" style="margin:24px 0;border-collapse:collapse;background:#f8f9ff;border-radius:12px;overflow:hidden;">
                <tr>
                    <td style="padding:14px 16px;font-size:13px;font-weight:700;color:#667EEA;">"#;

pub const SHIPPING_BEFORE_SHORT_ID: &'static str = r#"</td>
                    <td style="padding:14px 16px;font-size:14px;color:#1a1a2e;text-align:right;">#"#;

pub const SHIPPING_BEFORE_TRACKING_LABEL: &'static str = r#"</td>
                </tr>
                <tr>
                    <td style="padding:14px 16px;font-size:13px;font-weight:700;color:#667EEA;">"#;

pub const SHIPPING_BEFORE_TRACKING_NUMBER: &'static str = r#"</td>
                    <td style="padding:14px 16px;font-size:14px;color:#1a1a2e;text-align:right;">"#;

pub const SHIPPING_BEFORE_CARRIER_ROW: &'static str = "</td>
                </tr>
                ";

pub const SHIPPING_BEFORE_URL: &'static str = r#"
            </table>
            <div style="margin-top:24px;text-align:center;">
                <a href=""#;

pub const SHIPPING_BEFORE_CTA: &'static str = r#"/orders" style="background:linear-gradient(135deg,#667EEA,#764BA2);color:#fff;padding:12px 28px;border-radius:8px;text-decoration:none;font-weight:700;display:inline-block;">
                    "#;

pub const SHIPPING_END: &'static str = "
                </a>
            </div>
        </td></tr>";

// The carrier row of a shipping notification.
pub const SHIPPING_CARRIER_BEFORE_CARRIER_LABEL: &'static str = r#"<tr>
                    <td style="padding:14px 16px;font-size:13px;font-weight:700;color:#667EEA;">"#;

pub const SHIPPING_CARRIER_BEFORE_CARRIER: &'static str = r#"</td>
                    <td style="padding:14px 16px;font-size:14px;color:#1a1a2e;text-align:right;">"#;

pub const SHIPPING_CARRIER_END: &'static str = "</td>
                </tr>";

} // verus!
