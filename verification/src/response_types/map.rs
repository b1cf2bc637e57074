//! The in-game map and its points of interest.

use vstd::prelude::*;
use crate::codec::{FromJson, req_wf, req_models, opt_wf, opt_models, req_field, opt_field};
use crate::json::{Json, JsonModel};
use crate::codec::JsonNumber;

verus! {

/// The map with its named places.
#[derive(Debug, Clone, PartialEq, Eq, Hash)]
pub struct MapV1 {
    pub images: MapImages,
    pub pois: Vec<MapPoi>,
}

impl FromJson for MapV1 {
    open spec fn json_wf(j: JsonModel) -> bool {
        &&& j is Obj
        &&& req_wf::<MapImages>(j->Obj_0, "images"@)
        &&& req_wf::<Vec<MapPoi>>(j->Obj_0, "pois"@)
    }

    open spec fn json_models(&self, j: JsonModel) -> bool {
        &&& j is Obj
        &&& req_models(self.images, j->Obj_0, "images"@)
        &&& req_models(self.pois, j->Obj_0, "pois"@)
    }

    fn from_json(j: &Json) -> (r: Option<Self>) {
        let fields = match j {
            Json::Obj(f) => f,
            _ => {
                proof {
                    crate::codec::lemma_model_obj(*j);
                }
                return None;
            },
        };
        proof {
            crate::json::lemma_obj_model(*fields);
        }
        let images = match req_field::<MapImages>(fields, "images") {
            Some(v) => v,
            None => {
                return None;
            },
        };
        let pois = match req_field::<Vec<MapPoi>>(fields, "pois") {
            Some(v) => v,
            None => {
                return None;
            },
        };
        Some(MapV1 { images, pois })
    }
}
/// The map images, blank and annotated.
#[derive(Debug, Clone, PartialEq, Eq, Hash)]
pub struct MapImages {
    pub blank: String,
    pub pois: String,
}

impl FromJson for MapImages {
    open spec fn json_wf(j: JsonModel) -> bool {
        &&& j is Obj
        &&& req_wf::<String>(j->Obj_0, "blank"@)
        &&& req_wf::<String>(j->Obj_0, "pois"@)
    }

    open spec fn json_models(&self, j: JsonModel) -> bool {
        &&& j is Obj
        &&& req_models(self.blank, j->Obj_0, "blank"@)
        &&& req_models(self.pois, j->Obj_0, "pois"@)
    }

    fn from_json(j: &Json) -> (r: Option<Self>) {
        let fields = match j {
            Json::Obj(f) => f,
            _ => {
                proof {
                    crate::codec::lemma_model_obj(*j);
                }
                return None;
            },
        };
        proof {
            crate::json::lemma_obj_model(*fields);
        }
        let blank = match req_field::<String>(fields, "blank") {
            Some(v) => v,
            None => {
                return None;
            },
        };
        let pois = match req_field::<String>(fields, "pois") {
            Some(v) => v,
            None => {
                return None;
            },
        };
        Some(MapImages { blank, pois })
    }
}
/// One point of interest.
#[derive(Debug, Clone, PartialEq, Eq, Hash)]
pub struct MapPoi {
    pub id: String,
    pub name: Option<String>,
    pub location: MapPoiLocation,
}

impl FromJson for MapPoi {
    open spec fn json_wf(j: JsonModel) -> bool {
        &&& j is Obj
        &&& req_wf::<String>(j->Obj_0, "id"@)
        &&& opt_wf::<String>(j->Obj_0, "name"@)
        &&& req_wf::<MapPoiLocation>(j->Obj_0, "location"@)
    }

    open spec fn json_models(&self, j: JsonModel) -> bool {
        &&& j is Obj
        &&& req_models(self.id, j->Obj_0, "id"@)
        &&& opt_models(self.name, j->Obj_0, "name"@)
        &&& req_models(self.location, j->Obj_0, "location"@)
    }

    fn from_json(j: &Json) -> (r: Option<Self>) {
        let fields = match j {
            Json::Obj(f) => f,
            _ => {
                proof {
                    crate::codec::lemma_model_obj(*j);
                }
                return None;
            },
        };
        proof {
            crate::json::lemma_obj_model(*fields);
        }
        let id = match req_field::<String>(fields, "id") {
            Some(v) => v,
            None => {
                return None;
            },
        };
        let name = match opt_field::<String>(fields, "name") {
            Some(v) => v,
            None => {
                return None;
            },
        };
        let location = match req_field::<MapPoiLocation>(fields, "location") {
            Some(v) => v,
            None => {
                return None;
            },
        };
        Some(MapPoi { id, name, location })
    }
}
/// Where a point of interest sits, in world coordinates.
#[derive(Debug, Clone, PartialEq, Eq, Hash)]
pub struct MapPoiLocation {
    pub x: JsonNumber,
    pub y: JsonNumber,
    pub z: JsonNumber,
}

impl FromJson for MapPoiLocation {
    open spec fn json_wf(j: JsonModel) -> bool {
        &&& j is Obj
        &&& req_wf::<JsonNumber>(j->Obj_0, "x"@)
        &&& req_wf::<JsonNumber>(j->Obj_0, "y"@)
        &&& req_wf::<JsonNumber>(j->Obj_0, "z"@)
    }

    open spec fn json_models(&self, j: JsonModel) -> bool {
        &&& j is Obj
        &&& req_models(self.x, j->Obj_0, "x"@)
        &&& req_models(self.y, j->Obj_0, "y"@)
        &&& req_models(self.z, j->Obj_0, "z"@)
    }

    fn from_json(j: &Json) -> (r: Option<Self>) {
        let fields = match j {
            Json::Obj(f) => f,
            _ => {
                proof {
                    crate::codec::lemma_model_obj(*j);
                }
                return None;
            },
        };
        proof {
            crate::json::lemma_obj_model(*fields);
        }
        let x = match req_field::<JsonNumber>(fields, "x") {
            Some(v) => v,
            None => {
                return None;
            },
        };
        let y = match req_field::<JsonNumber>(fields, "y") {
            Some(v) => v,
            None => {
                return None;
            },
        };
        let z = match req_field::<JsonNumber>(fields, "z") {
            Some(v) => v,
            None => {
                return None;
            },
        };
        Some(MapPoiLocation { x, y, z })
    }
}
} // verus!
