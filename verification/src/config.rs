//! Device-tool configuration: the immutable credential bundle and its
//! validated construction from optionally-present raw values.

use vstd::prelude::*;

verus! {

/// Immutable bundle of everything the external device-control tool needs:
/// the device network address, the account credentials, and the working
/// directory the tool must run in. Loaded once at startup and shared
/// read-only for the process lifetime.
pub struct DeviceCredentials {
    pub device_ip: String,
    pub username: String,
    pub password: String,
    pub kasa_dir: String,
}

/// A missing required configuration value; fatal at startup.
#[derive(Clone, Copy, PartialEq, Eq, Structural, Debug)]
pub enum ConfigError {
    MissingDeviceIp,
    MissingUsername,
    MissingPassword,
    MissingKasaDir,
}

impl DeviceCredentials {
    /// Builds the credential bundle from raw values, each `None` when the
    /// corresponding source (environment) did not provide it. Succeeds
    /// exactly when all four values are present; otherwise reports the
    /// first missing one, in the fixed order address, username, password,
    /// working directory.
    pub fn from_values(
        device_ip: Option<String>,
        username: Option<String>,
        password: Option<String>,
        kasa_dir: Option<String>,
    ) -> (r: Result<DeviceCredentials, ConfigError>)
        ensures
            (r is Ok) <==> (device_ip is Some && username is Some && password is Some
                && kasa_dir is Some),
            r matches Ok(c) ==> {
                &&& device_ip matches Some(ip) && c.device_ip == ip
                &&& username matches Some(u) && c.username == u
                &&& password matches Some(p) && c.password == p
                &&& kasa_dir matches Some(d) && c.kasa_dir == d
            },
            device_ip is None ==> r == Err::<DeviceCredentials, ConfigError>(
                ConfigError::MissingDeviceIp,
            ),
            device_ip is Some && username is None ==> r == Err::<DeviceCredentials, ConfigError>(
                ConfigError::MissingUsername,
            ),
            device_ip is Some && username is Some && password is None ==> r == Err::<
                DeviceCredentials,
                ConfigError,
            >(ConfigError::MissingPassword),
            device_ip is Some && username is Some && password is Some && kasa_dir is None ==> r
                == Err::<DeviceCredentials, ConfigError>(ConfigError::MissingKasaDir),
    {
        let ip = match device_ip {
            Some(v) => v,
            None => {
                return Err(ConfigError::MissingDeviceIp);
            },
        };
        let user = match username {
            Some(v) => v,
            None => {
                return Err(ConfigError::MissingUsername);
            },
        };
        let pass = match password {
            Some(v) => v,
            None => {
                return Err(ConfigError::MissingPassword);
            },
        };
        let dir = match kasa_dir {
            Some(v) => v,
            None => {
                return Err(ConfigError::MissingKasaDir);
            },
        };
        Ok(DeviceCredentials { device_ip: ip, username: user, password: pass, kasa_dir: dir })
    }
}

} // verus!
