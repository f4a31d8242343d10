//! The token wallet: an access/refresh token pair together with the absolute
//! time at which the access token expires.
//!
//! The expiry is always stored as "time of issuance + provider-declared
//! lifetime", never as a relative countdown, so the refresh decision stays
//! correct across power cycles. Every function here takes the current
//! synchronized time as an argument: obtaining that time is the caller's
//! duty, and a caller that cannot obtain it must treat that as a hard
//! failure rather than assume the token is still valid.

use vstd::prelude::*;

verus! {

/// Mathematical model of a [`TokenWallet`].
pub struct WalletView {
    pub access_token: Seq<char>,
    pub refresh_token: Seq<char>,
    pub expires_at: u64,
}

/// An access/refresh token pair with its absolute expiry, in seconds since
/// the Unix epoch.
pub struct TokenWallet {
    pub access_token: String,
    pub refresh_token: String,
    pub expires_at: u64,
}

impl View for TokenWallet {
    type V = WalletView;

    open spec fn view(&self) -> WalletView {
        WalletView {
            access_token: self.access_token@,
            refresh_token: self.refresh_token@,
            expires_at: self.expires_at,
        }
    }
}

/// The refresh decision: the access token must be refreshed exactly when the
/// current synchronized time lies strictly after the expiry. At the boundary
/// (`now == expires_at`) the token still counts as valid.
pub open spec fn wallet_needs_refresh(w: WalletView, now: u64) -> bool {
    now > w.expires_at
}

/// What a wallet looks like after a successful refresh that rotated only the
/// access token: the refresh token is retained and the expiry is recomputed
/// from the current time, independent of the previous expiry.
pub open spec fn wallet_updated(
    w: WalletView,
    access_token: Seq<char>,
    expires_in: u64,
    now: u64,
) -> WalletView {
    WalletView {
        access_token: access_token,
        refresh_token: w.refresh_token,
        expires_at: (now + expires_in) as u64,
    }
}

impl TokenWallet {
    /// Builds the wallet handed out by the first successful authorization.
    pub fn new(access_token: String, refresh_token: String, expires_in: u64, now: u64) -> (w:
        TokenWallet)
        requires
            now + expires_in <= u64::MAX,
        ensures
            w@.access_token == access_token@,
            w@.refresh_token == refresh_token@,
            w@.expires_at == now + expires_in,
    {
        TokenWallet { access_token, refresh_token, expires_at: now + expires_in }
    }

    /// Replaces the access token and recomputes the expiry from the current
    /// synchronized time; the refresh token is retained.
    pub fn update(self, access_token: String, expires_in: u64, now: u64) -> (w: TokenWallet)
        requires
            now + expires_in <= u64::MAX,
        ensures
            w@ == wallet_updated(self@, access_token@, expires_in, now),
    {
        TokenWallet {
            access_token,
            refresh_token: self.refresh_token,
            expires_at: now + expires_in,
        }
    }

    /// True exactly when the current synchronized time lies strictly after
    /// the stored expiry.
    pub fn needs_refresh(&self, now: u64) -> (r: bool)
        ensures
            r == wallet_needs_refresh(self@, now),
    {
        now > self.expires_at
    }

    /// The absolute expiry, in seconds since the Unix epoch.
    pub fn expires_at(&self) -> (r: u64)
        ensures
            r == self@.expires_at,
    {
        self.expires_at
    }
}

/// The refresh decision agrees with the strict comparison against the expiry
/// on every wallet and every time; in particular a token observed exactly at
/// its expiry is still treated as valid.
pub proof fn lemma_needs_refresh_iff_past_expiry(w: WalletView, now: u64)
    ensures
        wallet_needs_refresh(w, now) <==> now > w.expires_at,
        now == w.expires_at ==> !wallet_needs_refresh(w, now),
{
}

/// Updating a wallet never looks at the previous expiry: two wallets that
/// share a refresh token are updated to the same wallet, whatever their old
/// expiries were.
pub proof fn lemma_update_ignores_previous_expiry(
    w1: WalletView,
    w2: WalletView,
    access_token: Seq<char>,
    expires_in: u64,
    now: u64,
)
    requires
        w1.refresh_token == w2.refresh_token,
    ensures
        wallet_updated(w1, access_token, expires_in, now) == wallet_updated(
            w2,
            access_token,
            expires_in,
            now,
        ),
{
}

} // verus!
