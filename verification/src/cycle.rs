//! The steady-state cycle's decisions. Once per wake the device joins the
//! persisted network, refreshes its access token if the wallet says so,
//! submits one check-in and goes back to deep sleep; the caller performs
//! the outside steps and this module decides each of them from plain
//! values.

use vstd::prelude::*;
use crate::auth0::TokenResult;
use crate::auth0::TokenResultView;
use crate::mycelium::rfc3339_utc_of;
use crate::mycelium::timestamp_to_rfc3339;
use crate::settings::FlashState;
use crate::settings::StoreView;
use crate::tokens::TokenWallet;
use crate::tokens::WalletView;
use crate::tokens::wallet_needs_refresh;
use crate::tokens::wallet_updated;

verus! {

/// Seconds the device deep-sleeps between wake cycles.
pub const DUTY_PERIOD_SECONDS: u64 = 300;

/// Whether this wake cycle must refresh the access token before checking
/// in: only when a wallet is present and the current synchronized time lies
/// past its expiry. A missing wallet cannot be refreshed; the check-in
/// itself will then fail and feed the error budget.
pub fn refresh_needed(store: &FlashState, now: u64) -> (r: bool)
    ensures
        r == match store@.wallet {
            Some(w) => wallet_needs_refresh(w, now),
            None => false,
        },
{
    match store.get_token_wallet() {
        Some(w) => w.needs_refresh(now),
        None => false,
    }
}

/// The expiry lifetime that keeps `now + expires_in` representable.
pub open spec fn clamped_lifetime(now: u64, expires_in: u64) -> u64 {
    if now + expires_in <= u64::MAX {
        expires_in
    } else {
        (u64::MAX - now) as u64
    }
}

/// What the durable records look like after one refresh response is
/// applied. A refresh response carrying only an access token keeps the
/// stored refresh token; a full grant replaces the wallet outright; a
/// provider error leaves the old wallet in place, degrading into a failed
/// check-in rather than cascading. Without a stored wallet nothing
/// changes.
pub open spec fn refresh_applied(s: StoreView, result: TokenResultView, now: u64) -> StoreView {
    match s.wallet {
        None => s,
        Some(w) => match result {
            TokenResultView::AccessToken { access_token, expires_in } => StoreView {
                wallet: Some(
                    wallet_updated(w, access_token, clamped_lifetime(now, expires_in), now),
                ),
                ..s
            },
            TokenResultView::Full { access_token, refresh_token, expires_in } => StoreView {
                wallet: Some(
                    WalletView {
                        access_token: access_token,
                        refresh_token: refresh_token,
                        expires_at: (now + clamped_lifetime(now, expires_in)) as u64,
                    },
                ),
                ..s
            },
            TokenResultView::Error { .. } => s,
        },
    }
}

/// Applies one refresh response to the stored wallet.
pub fn apply_refresh_result(store: &mut FlashState, result: TokenResult, now: u64)
    ensures
        final(store)@ == refresh_applied(old(store)@, result@, now),
{
    let wallet = match store.get_token_wallet() {
        Some(w) => TokenWallet {
            access_token: w.access_token.clone(),
            refresh_token: w.refresh_token.clone(),
            expires_at: w.expires_at,
        },
        None => {
            return ;
        },
    };
    match result {
        TokenResult::AccessToken { access_token, expires_in } => {
            let lifetime = if expires_in <= u64::MAX - now {
                expires_in
            } else {
                u64::MAX - now
            };
            let updated = wallet.update(access_token, lifetime, now);
            store.set_token_wallet(updated);
        },
        TokenResult::Full { access_token, refresh_token, expires_in } => {
            let lifetime = if expires_in <= u64::MAX - now {
                expires_in
            } else {
                u64::MAX - now
            };
            let replaced = TokenWallet::new(access_token, refresh_token, lifetime, now);
            store.set_token_wallet(replaced);
        },
        TokenResult::Error { .. } => {},
    }
}

/// Everything one check-in call needs from the durable records: the bearer
/// token, the station identity, and the timestamp of the reading.
pub struct CheckinPlan {
    pub access_token: String,
    pub station_id: String,
    pub timestamp: String,
}

/// Prepares one check-in. Succeeds exactly when a wallet and a station
/// identity are stored and the timestamp is representable; any missing
/// piece makes this wake cycle a failure for the error budget.
pub fn plan_checkin(store: &FlashState, now: u64) -> (r: Option<CheckinPlan>)
    ensures
        match r {
            Some(plan) => store@.wallet is Some && store@.station_id is Some && {
                &&& plan.access_token@ == store@.wallet->Some_0.access_token
                &&& Some(plan.station_id@) == store@.station_id
                &&& rfc3339_utc_of(now) == Some(plan.timestamp@)
            },
            None => store@.wallet is None || store@.station_id is None || rfc3339_utc_of(now)
                is None,
        },
{
    let wallet = match store.get_token_wallet() {
        Some(w) => w,
        None => {
            return None;
        },
    };
    let station_id = match store.get_station_id() {
        Some(s) => s,
        None => {
            return None;
        },
    };
    let timestamp = match timestamp_to_rfc3339(now) {
        Some(t) => t,
        None => {
            return None;
        },
    };
    Some(
        CheckinPlan {
            access_token: wallet.access_token.clone(),
            station_id: station_id.clone(),
            timestamp,
        },
    )
}

} // verus!
