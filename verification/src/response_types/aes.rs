//! The current AES keys.

use vstd::prelude::*;
use crate::codec::{FromJson, req_wf, req_models, opt_wf, opt_models, req_field, opt_field};
use crate::json::{Json, JsonModel};
use crate::time::Timestamp;

verus! {

/// The AES keys now in force.
#[derive(Debug, Clone, PartialEq, Eq, Hash)]
pub struct AesV2 {
    pub build: String,
    pub main_key: String,
    pub dynamic_keys: Vec<DynamicKey>,
    pub updated: Timestamp,
}

impl FromJson for AesV2 {
    open spec fn json_wf(j: JsonModel) -> bool {
        &&& j is Obj
        &&& req_wf::<String>(j->Obj_0, "build"@)
        &&& req_wf::<String>(j->Obj_0, "mainKey"@)
        &&& req_wf::<Vec<DynamicKey>>(j->Obj_0, "dynamicKeys"@)
        &&& req_wf::<Timestamp>(j->Obj_0, "updated"@)
    }

    open spec fn json_models(&self, j: JsonModel) -> bool {
        &&& j is Obj
        &&& req_models(self.build, j->Obj_0, "build"@)
        &&& req_models(self.main_key, j->Obj_0, "mainKey"@)
        &&& req_models(self.dynamic_keys, j->Obj_0, "dynamicKeys"@)
        &&& req_models(self.updated, j->Obj_0, "updated"@)
    }

    fn from_json(j: &Json) -> (r: Option<Self>) {
        let fields = match j {
            Json::Obj(f) => f,
            _ => {
                proof {
                    crate::codec::lemma_model_obj(*j);
                }
                return None;
            },
        };
        proof {
            crate::json::lemma_obj_model(*fields);
        }
        let build = match req_field::<String>(fields, "build") {
            Some(v) => v,
            None => {
                return None;
            },
        };
        let main_key = match req_field::<String>(fields, "mainKey") {
            Some(v) => v,
            None => {
                return None;
            },
        };
        let dynamic_keys = match req_field::<Vec<DynamicKey>>(fields, "dynamicKeys") {
            Some(v) => v,
            None => {
                return None;
            },
        };
        let updated = match req_field::<Timestamp>(fields, "updated") {
            Some(v) => v,
            None => {
                return None;
            },
        };
        Some(AesV2 { build, main_key, dynamic_keys, updated })
    }
}
/// One dynamic AES key, tied to a pak file.
#[derive(Debug, Clone, PartialEq, Eq, Hash)]
pub struct DynamicKey {
    pub pak_filename: String,
    pub pak_guid: String,
    pub key: String,
}

impl FromJson for DynamicKey {
    open spec fn json_wf(j: JsonModel) -> bool {
        &&& j is Obj
        &&& req_wf::<String>(j->Obj_0, "pakFilename"@)
        &&& req_wf::<String>(j->Obj_0, "pakGuid"@)
        &&& req_wf::<String>(j->Obj_0, "key"@)
    }

    open spec fn json_models(&self, j: JsonModel) -> bool {
        &&& j is Obj
        &&& req_models(self.pak_filename, j->Obj_0, "pakFilename"@)
        &&& req_models(self.pak_guid, j->Obj_0, "pakGuid"@)
        &&& req_models(self.key, j->Obj_0, "key"@)
    }

    fn from_json(j: &Json) -> (r: Option<Self>) {
        let fields = match j {
            Json::Obj(f) => f,
            _ => {
                proof {
                    crate::codec::lemma_model_obj(*j);
                }
                return None;
            },
        };
        proof {
            crate::json::lemma_obj_model(*fields);
        }
        let pak_filename = match req_field::<String>(fields, "pakFilename") {
            Some(v) => v,
            None => {
                return None;
            },
        };
        let pak_guid = match req_field::<String>(fields, "pakGuid") {
            Some(v) => v,
            None => {
                return None;
            },
        };
        let key = match req_field::<String>(fields, "key") {
            Some(v) => v,
            None => {
                return None;
            },
        };
        Some(DynamicKey { pak_filename, pak_guid, key })
    }
}
/// How the keys should be written in the response.
#[derive(Debug, Clone, Copy, PartialEq, Eq, Hash)]
pub enum AesKeyFormat {
    Hex,
    Base64,
}

impl AesKeyFormat {
    /// The token this value is written as on the wire.
    pub open spec fn wire(&self) -> Seq<char> {
        match self {
            AesKeyFormat::Hex => "hex"@,
            AesKeyFormat::Base64 => "base64"@,
        }
    }

    /// The token this value is written as on the wire.
    pub fn wire_str(&self) -> (r: &str)
        ensures
            r@ == self.wire(),
    {
        match self {
            AesKeyFormat::Hex => "hex",
            AesKeyFormat::Base64 => "base64",
        }
    }
}
} // verus!
