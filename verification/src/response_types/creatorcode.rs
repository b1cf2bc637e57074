//! Creator code lookups.

use vstd::prelude::*;
use crate::codec::{FromJson, req_wf, req_models, opt_wf, opt_models, req_field, opt_field};
use crate::json::{Json, JsonModel};

verus! {

/// One creator code and the account behind it.
#[derive(Debug, Clone, PartialEq, Eq, Hash)]
pub struct CreatorCodeV2 {
    pub code: String,
    pub account: CreatorCodeAccount,
    pub status: CreatorCodeStatus,
    pub verified: bool,
}

impl FromJson for CreatorCodeV2 {
    open spec fn json_wf(j: JsonModel) -> bool {
        &&& j is Obj
        &&& req_wf::<String>(j->Obj_0, "code"@)
        &&& req_wf::<CreatorCodeAccount>(j->Obj_0, "account"@)
        &&& req_wf::<CreatorCodeStatus>(j->Obj_0, "status"@)
        &&& req_wf::<bool>(j->Obj_0, "verified"@)
    }

    open spec fn json_models(&self, j: JsonModel) -> bool {
        &&& j is Obj
        &&& req_models(self.code, j->Obj_0, "code"@)
        &&& req_models(self.account, j->Obj_0, "account"@)
        &&& req_models(self.status, j->Obj_0, "status"@)
        &&& req_models(self.verified, j->Obj_0, "verified"@)
    }

    fn from_json(j: &Json) -> (r: Option<Self>) {
        let fields = match j {
            Json::Obj(f) => f,
            _ => {
                proof {
                    crate::codec::lemma_model_obj(*j);
                }
                return None;
            },
        };
        proof {
            crate::json::lemma_obj_model(*fields);
        }
        let code = match req_field::<String>(fields, "code") {
            Some(v) => v,
            None => {
                return None;
            },
        };
        let account = match req_field::<CreatorCodeAccount>(fields, "account") {
            Some(v) => v,
            None => {
                return None;
            },
        };
        let status = match req_field::<CreatorCodeStatus>(fields, "status") {
            Some(v) => v,
            None => {
                return None;
            },
        };
        let verified = match req_field::<bool>(fields, "verified") {
            Some(v) => v,
            None => {
                return None;
            },
        };
        Some(CreatorCodeV2 { code, account, status, verified })
    }
}
/// The account a creator code belongs to.
#[derive(Debug, Clone, PartialEq, Eq, Hash)]
pub struct CreatorCodeAccount {
    pub id: String,
    pub name: String,
}

impl FromJson for CreatorCodeAccount {
    open spec fn json_wf(j: JsonModel) -> bool {
        &&& j is Obj
        &&& req_wf::<String>(j->Obj_0, "id"@)
        &&& req_wf::<String>(j->Obj_0, "name"@)
    }

    open spec fn json_models(&self, j: JsonModel) -> bool {
        &&& j is Obj
        &&& req_models(self.id, j->Obj_0, "id"@)
        &&& req_models(self.name, j->Obj_0, "name"@)
    }

    fn from_json(j: &Json) -> (r: Option<Self>) {
        let fields = match j {
            Json::Obj(f) => f,
            _ => {
                proof {
                    crate::codec::lemma_model_obj(*j);
                }
                return None;
            },
        };
        proof {
            crate::json::lemma_obj_model(*fields);
        }
        let id = match req_field::<String>(fields, "id") {
            Some(v) => v,
            None => {
                return None;
            },
        };
        let name = match req_field::<String>(fields, "name") {
            Some(v) => v,
            None => {
                return None;
            },
        };
        Some(CreatorCodeAccount { id, name })
    }
}
/// Whether a creator code is live.
#[derive(Debug, Clone, Copy, PartialEq, Eq, Hash)]
pub enum CreatorCodeStatus {
    Active,
    Inactive,
}

impl CreatorCodeStatus {
    /// The token this value is written as on the wire.
    pub open spec fn wire(&self) -> Seq<char> {
        match self {
            CreatorCodeStatus::Active => "ACTIVE"@,
            CreatorCodeStatus::Inactive => "INACTIVE"@,
        }
    }

    /// The token this value is written as on the wire.
    pub fn wire_str(&self) -> (r: &str)
        ensures
            r@ == self.wire(),
    {
        match self {
            CreatorCodeStatus::Active => "ACTIVE",
            CreatorCodeStatus::Inactive => "INACTIVE",
        }
    }
}

impl FromJson for CreatorCodeStatus {
    open spec fn json_wf(j: JsonModel) -> bool {
        j matches JsonModel::Str(s) && (s == "ACTIVE"@ || s == "INACTIVE"@)
    }

    open spec fn json_models(&self, j: JsonModel) -> bool {
        j == JsonModel::Str(self.wire())
    }

    fn from_json(j: &Json) -> (r: Option<Self>) {
        match j {
            Json::Str(s) => {
                if crate::text::str_eq(s.as_str(), "ACTIVE") {
                    Some(CreatorCodeStatus::Active)
                } else if crate::text::str_eq(s.as_str(), "INACTIVE") {
                    Some(CreatorCodeStatus::Inactive)
                } else {
                    None
                }
            },
            _ => None,
        }
    }
}
} // verus!
