use vstd::prelude::*;
use super::{AeadConfig, KeyConfigModel};

verus! {

/// The key a `KeyConfig` message carries.
#[derive(Clone, Debug)]
pub enum Config {
    Aead(AeadConfig),
    Sgxfs(Vec<u8>),
}

impl View for Config {
    type V = KeyConfigModel;

    open spec fn view(&self) -> KeyConfigModel {
        match self {
            Config::Aead(a) => a@,
            Config::Sgxfs(k) => KeyConfigModel::Sgxfs { key: k@ },
        }
    }
}

} // verus!
