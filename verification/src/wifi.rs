//! The credentials with which a device joins a wireless network, checked
//! before anything is sent.
use vstd::prelude::*;
use vstd::string::StringSliceAdditionalSpecFns;

verus! {

/// The longest network name that a station accepts, in bytes.
pub const MAX_SSID_BYTES: usize = 32;

/// The longest password that a station accepts, in bytes.
pub const MAX_PASSWORD_BYTES: usize = 64;

/// Why credentials are refused.
#[derive(Debug, PartialEq, Eq, Clone, Copy, Structural)]
pub enum WifiError {
    /// The network name is empty.
    MissingSsid,
    /// The password is empty.
    MissingPassword,
}

impl WifiError {
    /// The text of each refusal.
    pub open spec fn spec_message(self) -> Seq<char> {
        match self {
            WifiError::MissingSsid => "Missing Wi-Fi SSID"@,
            WifiError::MissingPassword => "Missing Wifi password"@,
        }
    }

    /// The text of the refusal.
    pub fn message(self) -> (r: &'static str)
        ensures
            r@ == self.spec_message(),
    {
        match self {
            WifiError::MissingSsid => "Missing Wi-Fi SSID",
            WifiError::MissingPassword => "Missing Wifi password",
        }
    }
}

/// The name of a wireless network and its password.
#[derive(Debug, Clone, Copy)]
pub struct WifiConfig {
    /// The network name.
    pub ssid: &'static str,
    /// The password.
    pub password: &'static str,
}

impl WifiConfig {
    /// What is wrong with the credentials, if anything: an empty network
    /// name first, then an empty password.
    pub open spec fn spec_check(ssid: Seq<char>, password: Seq<char>) -> Result<(), WifiError> {
        if ssid.len() == 0 {
            Err(WifiError::MissingSsid)
        } else if password.len() == 0 {
            Err(WifiError::MissingPassword)
        } else {
            Ok(())
        }
    }

    /// Credentials without a network name and without a password.
    pub fn empty() -> (r: Self)
        ensures
            r.ssid@.len() == 0,
            r.password@.len() == 0,
    {
        proof {
            reveal_strlit("");
        }
        Self { ssid: "", password: "" }
    }

    /// Checks that neither the network name nor the password is empty.
    pub fn check(&self) -> (r: Result<(), WifiError>)
        ensures
            r == Self::spec_check(self.ssid@, self.password@),
    {
        if self.ssid.is_empty() {
            Err(WifiError::MissingSsid)
        } else if self.password.is_empty() {
            Err(WifiError::MissingPassword)
        } else {
            Ok(())
        }
    }

    /// Checks that the network name and the password are short enough for
    /// a station: at most [`MAX_SSID_BYTES`] and [`MAX_PASSWORD_BYTES`]
    /// bytes.
    pub fn fits(&self) -> (r: bool)
        ensures
            r == (self.ssid.spec_bytes().len() <= MAX_SSID_BYTES
                && self.password.spec_bytes().len() <= MAX_PASSWORD_BYTES),
    {
        self.ssid.as_bytes().len() <= MAX_SSID_BYTES && self.password.as_bytes().len()
            <= MAX_PASSWORD_BYTES
    }
}

} // verus!
