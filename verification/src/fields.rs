//! The names of document fields.
use vstd::prelude::*;

verus! {

pub const ARCHIVED: &'static str = "archived";
pub const ARCHIVED_AT: &'static str = "archivedAt";
pub const AMOUNT_CENTS: &'static str = "amountCents";
pub const ATTEMPTS: &'static str = "attempts";
pub const AUTO_CAPTURED: &'static str = "autoCaptured";
pub const AVERAGE_DELIVERY_HOURS: &'static str = "averageDeliveryHours";
pub const BREACHES: &'static str = "breaches";
pub const BUSINESS_NAME: &'static str = "businessName";
pub const BUYER_ID: &'static str = "buyerId";
pub const BUYER_UNREAD_COUNT: &'static str = "buyerUnreadCount";
pub const CANCELLATION_RATE: &'static str = "cancellationRate";
pub const CANCELLATION_REASON: &'static str = "cancellationReason";
pub const CANCEL_AT_PERIOD_END: &'static str = "cancelAtPeriodEnd";
pub const CHAT_ID: &'static str = "chatId";
pub const CODE: &'static str = "code";
pub const COMPLETED_AT: &'static str = "completedAt";
pub const COMPUTED_AT: &'static str = "computedAt";
pub const COUPON_TYPE: &'static str = "couponType";
pub const CREATED_AT: &'static str = "createdAt";
pub const CUSTOMER_EMAIL: &'static str = "customerEmail";
pub const DATA: &'static str = "data";
pub const DELETED: &'static str = "deleted";
pub const DELIVERED_AT: &'static str = "deliveredAt";
pub const DEVICE_ID: &'static str = "deviceId";
pub const DISCOUNT_TYPE: &'static str = "discountType";
pub const DISCOUNT_VALUE: &'static str = "discountValue";
pub const DISPLAY_NAME: &'static str = "displayName";
pub const DISPUTE_RATE: &'static str = "disputeRate";
pub const EMAIL: &'static str = "email";
pub const EMAIL_CONSENT: &'static str = "emailConsent";
pub const ERROR_MESSAGE: &'static str = "errorMessage";
pub const ESCALATED_AT: &'static str = "escalatedAt";
pub const ESCALATION_REASON: &'static str = "escalationReason";
pub const EVENT_TYPE: &'static str = "eventType";
pub const EXPIRES_AT: &'static str = "expiresAt";
pub const FAVORITE_COUNT: &'static str = "favoriteCount";
pub const FIRST_BUYER_MESSAGE_AT: &'static str = "firstBuyerMessageAt";
pub const FIRST_REPLY_HOURS: &'static str = "firstReplyHours";
pub const FIRST_SELLER_REPLY_AT: &'static str = "firstSellerReplyAt";
pub const HAS_DISPUTE: &'static str = "hasDispute";
pub const ID: &'static str = "id";
pub const IMAGE_URLS: &'static str = "imageUrls";
pub const IS_DIGITAL: &'static str = "isDigital";
pub const IS_PREMIUM: &'static str = "isPremium";
pub const IS_TRENDING: &'static str = "isTrending";
pub const ITEMS: &'static str = "items";
pub const JOB_NAME: &'static str = "jobName";
pub const LANGUAGE: &'static str = "language";
pub const LAST_CART_ABANDON_EMAIL_AT: &'static str = "lastCartAbandonEmailAt";
pub const LAST_CHECKOUT_TIMESTAMP: &'static str = "lastCheckoutTimestamp";
pub const LAST_LOW_STOCK_ALERT_AT: &'static str = "lastLowStockAlertAt";
pub const LAST_MESSAGE: &'static str = "lastMessage";
pub const LAST_MESSAGE_AT: &'static str = "lastMessageAt";
pub const LAST_MESSAGE_TEXT: &'static str = "lastMessageText";
pub const LICENSE_KEY: &'static str = "licenseKey";
pub const LIFECYCLE_STATUS: &'static str = "lifecycleStatus";
pub const LOCKED_AT: &'static str = "lockedAt";
pub const LOCKED_BY: &'static str = "lockedBy";
pub const LOW_STOCK_THRESHOLD: &'static str = "lowStockThreshold";
pub const MAX_RETRIES_EXCEEDED: &'static str = "maxRetriesExceeded";
pub const MAX_USES: &'static str = "maxUses";
pub const MESSAGE: &'static str = "message";
pub const MESSAGE_COUNT: &'static str = "messageCount";
pub const MESSAGE_ID: &'static str = "messageId";
pub const MESSAGE_TEXT: &'static str = "messageText";
pub const MIN_ORDER_CENTS: &'static str = "minOrderCents";
pub const NAME: &'static str = "name";
pub const NET_AMOUNT_CENTS: &'static str = "netAmountCents";
pub const NOTIFICATION_BODY: &'static str = "body";
pub const NOTIFICATION_TITLE: &'static str = "title";
pub const ORDER_ID: &'static str = "orderId";
pub const ORDER_STATUS: &'static str = "orderStatus";
pub const PAYMENT_INTENT_ID: &'static str = "paymentIntentId";
pub const PAYMENT_STATUS: &'static str = "paymentStatus";
pub const PAYOUT_DATE: &'static str = "payoutDate";
pub const PAYOUT_STATUS: &'static str = "payoutStatus";
pub const PENDING_UPDATED_AT: &'static str = "pendingUpdatedAt";
pub const PLATFORM_FEE_CENTS: &'static str = "platformFeeCents";
pub const PREFERRED_LANGUAGE: &'static str = "preferredLanguage";
pub const PREMIUM_EXPIRES_AT: &'static str = "premiumExpiresAt";
pub const PREMIUM_SINCE: &'static str = "premiumSince";
pub const PRICE: &'static str = "price";
pub const PRICE_CENTS: &'static str = "priceCents";
pub const PRODUCT_ID: &'static str = "productId";
pub const PRODUCT_IDS: &'static str = "productIds";
pub const PRODUCT_IMAGE_URL: &'static str = "productImageUrl";
pub const PRODUCT_TITLE: &'static str = "productTitle";
pub const PURCHASE_COUNT: &'static str = "purchaseCount";
pub const QUANTITY: &'static str = "quantity";
pub const READ: &'static str = "read";
pub const REASON: &'static str = "reason";
pub const RECOMMENDATIONS: &'static str = "recommendations";
pub const REFUND_RATE: &'static str = "refundRate";
pub const REPORTER_ID: &'static str = "reporterId";
pub const REPORT_ID: &'static str = "reportId";
pub const RESOLVED: &'static str = "resolved";
pub const RETRY_COUNT: &'static str = "retryCount";
pub const RETURN_STATUS: &'static str = "returnStatus";
pub const ROLES: &'static str = "roles";
pub const SCORE: &'static str = "score";
pub const SELLER_ID: &'static str = "sellerId";
pub const SELLER_UNREAD_COUNT: &'static str = "sellerUnreadCount";
pub const SENDER_DISPLAY_NAME: &'static str = "senderDisplayName";
pub const SENDER_ID: &'static str = "senderId";
pub const SEVERITY: &'static str = "severity";
pub const SHIPPING_COST_CENTS: &'static str = "shippingCostCents";
pub const STATUS: &'static str = "status";
pub const STOCK_QUANTITY: &'static str = "stockQuantity";
pub const STOCK_RESTORED: &'static str = "stockRestored";
pub const STORE_NAME: &'static str = "storeName";
pub const STRIPE_SUBSCRIPTION_ID: &'static str = "stripeSubscriptionId";
pub const SUBTOTAL_CENTS: &'static str = "subtotalCents";
pub const TAX_AMOUNT_CENTS: &'static str = "taxAmountCents";
pub const TITLE: &'static str = "name";
pub const TOKEN: &'static str = "token";
pub const TOTAL_AMOUNT_CENTS: &'static str = "totalAmountCents";
pub const TOTAL_ITEMS_30D: &'static str = "totalItems30d";
pub const TRACK_QUANTITY: &'static str = "trackQuantity";
pub const TRENDING_AT: &'static str = "trendingAt";
pub const TRENDING_SCORE: &'static str = "trendingScore";
pub const TYPE: &'static str = "type";
pub const UID: &'static str = "uid";
pub const UPDATED_AT: &'static str = "updatedAt";
pub const USED_COUNT: &'static str = "usedCount";
pub const USER_ID: &'static str = "userId";
pub const VIEW_COUNT: &'static str = "viewCount";

} // verus!
