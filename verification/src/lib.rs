//! A verified core for a vCard QR-code service: formatting contact records
//! as vCard 3.0 text, parsing hex color strings, recoloring QR bitmaps, and
//! assembling PNG data URIs, plus the small decision logic of the
//! authentication and admin layers.
pub mod auth;
pub mod color;
pub mod contact;
pub mod qr;
pub mod vcard;

pub use auth::{authenticate, authorize_user_delete, change_password, hash_password, require_admin,
    session_user, verify_password, AdminGateError, AuthError, DeleteGateError,
    PasswordChangeError, User, UserInfo};
pub use color::parse_color;
pub use contact::ContactData;
pub use qr::{colorize, contact_qr_data_uri, render_qr_data_uri, EncodingError, GrayBitmap,
    RgbBitmap};
pub use vcard::generate_vcard;
