//! Session persistence and redeem dispatch for a small authenticated web service.
//!
//! The library holds every decision of the client: what a login exchange turns
//! into, how a stored session is checked before use, how redeem options select
//! single or burst mode, and the exact launch schedule of a burst. The program
//! around it performs the network and file work and feeds the results back.

mod burst;
mod cookies;
mod error;
mod header;
mod redeem;
mod session;

pub use burst::{
    burst_len, burst_script, elapsed_ms, lemma_burst_joins_all, lemma_burst_launches_each_once, lemma_burst_spacing,
    BurstAction, BurstDispatcher,
};
pub use cookies::{cookie_pairs, cookie_scan, lemma_pairs_visible, split_cookie_pairs};
pub use error::{ClientError, RedeemFailure};
pub use header::{
    ascii_chars, header_bytes_of, header_char, header_text, lemma_login_cookies_reload, lemma_visible_bytes_text,
    lemma_visible_text_is_header_text, session_cookie_headers, visible_byte, visible_bytes, visible_char, visible_text,
};
pub use redeem::{
    prepare_redeem, resolve_input, single_result, Outcome, RedeemJob, RedeemPlan, RedeemRequest, StoredSession,
    DEFAULT_INPUT,
};
pub use session::{
    is_success_status, session_from_login, success_status, LoginRequest, SessionRecord, AUTH_URL, REDEEM_ORIGIN,
    REDEEM_URL, TARGET_URL,
};
