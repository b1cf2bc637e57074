//! The banner catalog and its color palette.

use vstd::prelude::*;
use crate::codec::{FromJson, req_wf, req_models, opt_wf, opt_models, req_field, opt_field};
use crate::json::{Json, JsonModel};

verus! {

pub type BannersV1 = Vec<BannerV1>;

pub type BannersColorsV1 = Vec<BannersColorV1>;

/// One banner of the catalog.
#[derive(Debug, Clone, PartialEq, Eq, Hash)]
pub struct BannerV1 {
    pub id: String,
    pub dev_name: String,
    pub description: String,
    pub category: BannerCategory,
    pub full_usage_rights: bool,
    pub images: BannerImages,
}

impl FromJson for BannerV1 {
    open spec fn json_wf(j: JsonModel) -> bool {
        &&& j is Obj
        &&& req_wf::<String>(j->Obj_0, "id"@)
        &&& req_wf::<String>(j->Obj_0, "devName"@)
        &&& req_wf::<String>(j->Obj_0, "description"@)
        &&& req_wf::<BannerCategory>(j->Obj_0, "category"@)
        &&& req_wf::<bool>(j->Obj_0, "fullUsageRights"@)
        &&& req_wf::<BannerImages>(j->Obj_0, "images"@)
    }

    open spec fn json_models(&self, j: JsonModel) -> bool {
        &&& j is Obj
        &&& req_models(self.id, j->Obj_0, "id"@)
        &&& req_models(self.dev_name, j->Obj_0, "devName"@)
        &&& req_models(self.description, j->Obj_0, "description"@)
        &&& req_models(self.category, j->Obj_0, "category"@)
        &&& req_models(self.full_usage_rights, j->Obj_0, "fullUsageRights"@)
        &&& req_models(self.images, j->Obj_0, "images"@)
    }

    fn from_json(j: &Json) -> (r: Option<Self>) {
        let fields = match j {
            Json::Obj(f) => f,
            _ => {
                proof {
                    crate::codec::lemma_model_obj(*j);
                }
                return None;
            },
        };
        proof {
            crate::json::lemma_obj_model(*fields);
        }
        let id = match req_field::<String>(fields, "id") {
            Some(v) => v,
            None => {
                return None;
            },
        };
        let dev_name = match req_field::<String>(fields, "devName") {
            Some(v) => v,
            None => {
                return None;
            },
        };
        let description = match req_field::<String>(fields, "description") {
            Some(v) => v,
            None => {
                return None;
            },
        };
        let category = match req_field::<BannerCategory>(fields, "category") {
            Some(v) => v,
            None => {
                return None;
            },
        };
        let full_usage_rights = match req_field::<bool>(fields, "fullUsageRights") {
            Some(v) => v,
            None => {
                return None;
            },
        };
        let images = match req_field::<BannerImages>(fields, "images") {
            Some(v) => v,
            None => {
                return None;
            },
        };
        Some(BannerV1 { id, dev_name, description, category, full_usage_rights, images })
    }
}
/// Where a banner's images live.
#[derive(Debug, Clone, PartialEq, Eq, Hash)]
pub struct BannerImages {
    pub small_icon: String,
    pub icon: String,
}

impl FromJson for BannerImages {
    open spec fn json_wf(j: JsonModel) -> bool {
        &&& j is Obj
        &&& req_wf::<String>(j->Obj_0, "smallIcon"@)
        &&& req_wf::<String>(j->Obj_0, "icon"@)
    }

    open spec fn json_models(&self, j: JsonModel) -> bool {
        &&& j is Obj
        &&& req_models(self.small_icon, j->Obj_0, "smallIcon"@)
        &&& req_models(self.icon, j->Obj_0, "icon"@)
    }

    fn from_json(j: &Json) -> (r: Option<Self>) {
        let fields = match j {
            Json::Obj(f) => f,
            _ => {
                proof {
                    crate::codec::lemma_model_obj(*j);
                }
                return None;
            },
        };
        proof {
            crate::json::lemma_obj_model(*fields);
        }
        let small_icon = match req_field::<String>(fields, "smallIcon") {
            Some(v) => v,
            None => {
                return None;
            },
        };
        let icon = match req_field::<String>(fields, "icon") {
            Some(v) => v,
            None => {
                return None;
            },
        };
        Some(BannerImages { small_icon, icon })
    }
}
/// The groups banners are sorted into.
#[derive(Debug, Clone, Copy, PartialEq, Eq, Hash)]
pub enum BannerCategory {
    BattleRoyale,
    Founder,
    Other,
    Special,
    Standard,
}

impl BannerCategory {
    /// The token this value is written as on the wire.
    pub open spec fn wire(&self) -> Seq<char> {
        match self {
            BannerCategory::BattleRoyale => "BattleRoyale"@,
            BannerCategory::Founder => "Founder"@,
            BannerCategory::Other => "Other"@,
            BannerCategory::Special => "Special"@,
            BannerCategory::Standard => "Standard"@,
        }
    }

    /// The token this value is written as on the wire.
    pub fn wire_str(&self) -> (r: &str)
        ensures
            r@ == self.wire(),
    {
        match self {
            BannerCategory::BattleRoyale => "BattleRoyale",
            BannerCategory::Founder => "Founder",
            BannerCategory::Other => "Other",
            BannerCategory::Special => "Special",
            BannerCategory::Standard => "Standard",
        }
    }
}

impl FromJson for BannerCategory {
    open spec fn json_wf(j: JsonModel) -> bool {
        j matches JsonModel::Str(s) && (s == "BattleRoyale"@ || s == "Founder"@ || s == "Other"@ || s == "Special"@ || s == "Standard"@)
    }

    open spec fn json_models(&self, j: JsonModel) -> bool {
        j == JsonModel::Str(self.wire())
    }

    fn from_json(j: &Json) -> (r: Option<Self>) {
        match j {
            Json::Str(s) => {
                if crate::text::str_eq(s.as_str(), "BattleRoyale") {
                    Some(BannerCategory::BattleRoyale)
                } else if crate::text::str_eq(s.as_str(), "Founder") {
                    Some(BannerCategory::Founder)
                } else if crate::text::str_eq(s.as_str(), "Other") {
                    Some(BannerCategory::Other)
                } else if crate::text::str_eq(s.as_str(), "Special") {
                    Some(BannerCategory::Special)
                } else if crate::text::str_eq(s.as_str(), "Standard") {
                    Some(BannerCategory::Standard)
                } else {
                    None
                }
            },
            _ => None,
        }
    }
}
/// One color of the banner palette.
#[derive(Debug, Clone, PartialEq, Eq, Hash)]
pub struct BannersColorV1 {
    pub id: String,
    pub color: String,
    pub category: String,
    pub sub_category_group: u8,
}

impl FromJson for BannersColorV1 {
    open spec fn json_wf(j: JsonModel) -> bool {
        &&& j is Obj
        &&& req_wf::<String>(j->Obj_0, "id"@)
        &&& req_wf::<String>(j->Obj_0, "color"@)
        &&& req_wf::<String>(j->Obj_0, "category"@)
        &&& req_wf::<u8>(j->Obj_0, "subCategoryGroup"@)
    }

    open spec fn json_models(&self, j: JsonModel) -> bool {
        &&& j is Obj
        &&& req_models(self.id, j->Obj_0, "id"@)
        &&& req_models(self.color, j->Obj_0, "color"@)
        &&& req_models(self.category, j->Obj_0, "category"@)
        &&& req_models(self.sub_category_group, j->Obj_0, "subCategoryGroup"@)
    }

    fn from_json(j: &Json) -> (r: Option<Self>) {
        let fields = match j {
            Json::Obj(f) => f,
            _ => {
                proof {
                    crate::codec::lemma_model_obj(*j);
                }
                return None;
            },
        };
        proof {
            crate::json::lemma_obj_model(*fields);
        }
        let id = match req_field::<String>(fields, "id") {
            Some(v) => v,
            None => {
                return None;
            },
        };
        let color = match req_field::<String>(fields, "color") {
            Some(v) => v,
            None => {
                return None;
            },
        };
        let category = match req_field::<String>(fields, "category") {
            Some(v) => v,
            None => {
                return None;
            },
        };
        let sub_category_group = match req_field::<u8>(fields, "subCategoryGroup") {
            Some(v) => v,
            None => {
                return None;
            },
        };
        Some(BannersColorV1 { id, color, category, sub_category_group })
    }
}
} // verus!
