//! The in-game news feeds.

use vstd::prelude::*;
use crate::codec::{FromJson, req_wf, req_models, opt_wf, opt_models, req_field, opt_field};
use crate::json::{Json, JsonModel};
use crate::time::Timestamp;

verus! {

/// The news of every game mode that has any.
#[derive(Debug, Clone, PartialEq, Eq, Hash)]
pub struct NewsV2 {
    pub br: Option<News>,
    pub stw: Option<News>,
    pub creative: Option<News>,
}

impl FromJson for NewsV2 {
    open spec fn json_wf(j: JsonModel) -> bool {
        &&& j is Obj
        &&& opt_wf::<News>(j->Obj_0, "br"@)
        &&& opt_wf::<News>(j->Obj_0, "stw"@)
        &&& opt_wf::<News>(j->Obj_0, "creative"@)
    }

    open spec fn json_models(&self, j: JsonModel) -> bool {
        &&& j is Obj
        &&& opt_models(self.br, j->Obj_0, "br"@)
        &&& opt_models(self.stw, j->Obj_0, "stw"@)
        &&& opt_models(self.creative, j->Obj_0, "creative"@)
    }

    fn from_json(j: &Json) -> (r: Option<Self>) {
        let fields = match j {
            Json::Obj(f) => f,
            _ => {
                proof {
                    crate::codec::lemma_model_obj(*j);
                }
                return None;
            },
        };
        proof {
            crate::json::lemma_obj_model(*fields);
        }
        let br = match opt_field::<News>(fields, "br") {
            Some(v) => v,
            None => {
                return None;
            },
        };
        let stw = match opt_field::<News>(fields, "stw") {
            Some(v) => v,
            None => {
                return None;
            },
        };
        let creative = match opt_field::<News>(fields, "creative") {
            Some(v) => v,
            None => {
                return None;
            },
        };
        Some(NewsV2 { br, stw, creative })
    }
}
/// One mode's news feed.
#[derive(Debug, Clone, PartialEq, Eq, Hash)]
pub struct News {
    pub hash: String,
    pub date: Timestamp,
    pub image: Option<String>,
}

impl FromJson for News {
    open spec fn json_wf(j: JsonModel) -> bool {
        &&& j is Obj
        &&& req_wf::<String>(j->Obj_0, "hash"@)
        &&& req_wf::<Timestamp>(j->Obj_0, "date"@)
        &&& opt_wf::<String>(j->Obj_0, "image"@)
    }

    open spec fn json_models(&self, j: JsonModel) -> bool {
        &&& j is Obj
        &&& req_models(self.hash, j->Obj_0, "hash"@)
        &&& req_models(self.date, j->Obj_0, "date"@)
        &&& opt_models(self.image, j->Obj_0, "image"@)
    }

    fn from_json(j: &Json) -> (r: Option<Self>) {
        let fields = match j {
            Json::Obj(f) => f,
            _ => {
                proof {
                    crate::codec::lemma_model_obj(*j);
                }
                return None;
            },
        };
        proof {
            crate::json::lemma_obj_model(*fields);
        }
        let hash = match req_field::<String>(fields, "hash") {
            Some(v) => v,
            None => {
                return None;
            },
        };
        let date = match req_field::<Timestamp>(fields, "date") {
            Some(v) => v,
            None => {
                return None;
            },
        };
        let image = match opt_field::<String>(fields, "image") {
            Some(v) => v,
            None => {
                return None;
            },
        };
        Some(News { hash, date, image })
    }
}
} // verus!
