//! The device's durable records, as one in-memory value.
//!
//! The durable key-value partition itself lives outside this crate: the
//! caller loads these four records at boot, hands them to the logic here,
//! and writes back whatever changed. Absence of a record is the normal "not
//! yet provisioned" condition, not an error.

use vstd::prelude::*;
use crate::tokens::TokenWallet;
use crate::tokens::WalletView;
use crate::wifi::MyceliumWifiSettings;
use crate::wifi::WifiSettingsView;

verus! {

/// Mathematical model of [`FlashState`].
pub struct StoreView {
    pub wifi: Option<WifiSettingsView>,
    pub wallet: Option<WalletView>,
    pub station_id: Option<Seq<char>>,
    pub num_errors: Option<u32>,
}

/// The store of a device with nothing provisioned.
pub open spec fn store_empty() -> StoreView {
    StoreView { wifi: None, wallet: None, station_id: None, num_errors: None }
}

/// The consecutive-failure counter a store stands for: an absent record
/// counts as zero.
pub open spec fn store_num_errors(s: StoreView) -> u32 {
    match s.num_errors {
        Some(n) => n,
        None => 0,
    }
}

/// The four durable records: the enriched join settings, the token wallet,
/// the backend-assigned station identity and the consecutive-failure
/// counter. Each is independently absent until first written.
pub struct FlashState {
    pub wifi: Option<MyceliumWifiSettings>,
    pub wallet: Option<TokenWallet>,
    pub station_id: Option<String>,
    pub num_errors: Option<u32>,
}

impl View for FlashState {
    type V = StoreView;

    open spec fn view(&self) -> StoreView {
        StoreView {
            wifi: match self.wifi {
                Some(ref w) => Some(w@),
                None => None,
            },
            wallet: match self.wallet {
                Some(ref w) => Some(w@),
                None => None,
            },
            station_id: match self.station_id {
                Some(ref s) => Some(s@),
                None => None,
            },
            num_errors: self.num_errors,
        }
    }
}

impl FlashState {
    /// The records of a device with nothing provisioned.
    pub fn new() -> (r: FlashState)
        ensures
            r@ == store_empty(),
    {
        FlashState { wifi: None, wallet: None, station_id: None, num_errors: None }
    }

    /// Persists the (possibly enriched) join settings.
    pub fn set_wifi_settings(&mut self, s: MyceliumWifiSettings)
        ensures
            final(self)@ == (StoreView { wifi: Some(s@), ..old(self)@ }),
    {
        self.wifi = Some(s);
    }

    /// The persisted join settings, if the network was ever provisioned.
    pub fn get_wifi_settings(&self) -> (r: Option<&MyceliumWifiSettings>)
        ensures
            match r {
                Some(w) => self@.wifi == Some(w@),
                None => self@.wifi is None,
            },
    {
        self.wifi.as_ref()
    }

    /// Persists the token wallet; called after every wallet mutation.
    pub fn set_token_wallet(&mut self, wallet: TokenWallet)
        ensures
            final(self)@ == (StoreView { wallet: Some(wallet@), ..old(self)@ }),
    {
        self.wallet = Some(wallet);
    }

    /// The persisted token wallet, if the device was ever authorized.
    pub fn get_token_wallet(&self) -> (r: Option<&TokenWallet>)
        ensures
            match r {
                Some(w) => self@.wallet == Some(w@),
                None => self@.wallet is None,
            },
    {
        self.wallet.as_ref()
    }

    /// Persists the backend-assigned station identity.
    pub fn set_station_id(&mut self, id: String)
        ensures
            final(self)@ == (StoreView { station_id: Some(id@), ..old(self)@ }),
    {
        self.station_id = Some(id);
    }

    /// The persisted station identity, if the device was ever registered.
    pub fn get_station_id(&self) -> (r: Option<&String>)
        ensures
            match r {
                Some(s) => self@.station_id == Some(s@),
                None => self@.station_id is None,
            },
    {
        self.station_id.as_ref()
    }

    /// Whether a station identity is present: the test that decides between
    /// onboarding mode and operational mode at boot.
    pub fn has_station_id(&self) -> (r: bool)
        ensures
            r == (self@.station_id is Some),
    {
        self.station_id.is_some()
    }

    /// Resets the consecutive-failure counter to zero.
    pub fn reset_errors(&mut self)
        ensures
            final(self)@ == (StoreView { num_errors: Some(0), ..old(self)@ }),
    {
        self.num_errors = Some(0);
    }

    /// Advances the consecutive-failure counter by one.
    pub fn increment_errors(&mut self)
        requires
            store_num_errors(old(self)@) < u32::MAX,
        ensures
            final(self)@ == (StoreView {
                num_errors: Some((store_num_errors(old(self)@) + 1) as u32),
                ..old(self)@
            }),
    {
        let current = self.get_num_errors();
        self.num_errors = Some(current + 1);
    }

    /// The consecutive-failure counter; zero when never written.
    pub fn get_num_errors(&self) -> (r: u32)
        ensures
            r == store_num_errors(self@),
    {
        match self.num_errors {
            Some(n) => n,
            None => 0,
        }
    }

    /// Erases every durable record: the destructive recovery that forces the
    /// device back into onboarding mode on its next wake.
    pub fn erase_settings(&mut self)
        ensures
            final(self)@ == store_empty(),
    {
        self.num_errors = None;
        self.station_id = None;
        self.wifi = None;
        self.wallet = None;
    }
}

} // verus!
