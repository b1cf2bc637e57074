//! The cosmetic item catalog.

use vstd::prelude::*;
use crate::codec::{FromJson, req_wf, req_models, opt_wf, opt_models, req_field, opt_field};
use crate::json::{Json, JsonModel};
use crate::time::Timestamp;

verus! {

pub type CosmeticsV2 = Vec<CosmeticV2>;

/// The cosmetics added since the previous build.
#[derive(Debug, Clone, PartialEq, Eq, Hash)]
pub struct CosmeticsNewV2 {
    pub build: String,
    pub previous_build: String,
    pub hash: String,
    pub date: Timestamp,
    pub last_addition: Timestamp,
    pub items: CosmeticsV2,
}

impl FromJson for CosmeticsNewV2 {
    open spec fn json_wf(j: JsonModel) -> bool {
        &&& j is Obj
        &&& req_wf::<String>(j->Obj_0, "build"@)
        &&& req_wf::<String>(j->Obj_0, "previousBuild"@)
        &&& req_wf::<String>(j->Obj_0, "hash"@)
        &&& req_wf::<Timestamp>(j->Obj_0, "date"@)
        &&& req_wf::<Timestamp>(j->Obj_0, "lastAddition"@)
        &&& req_wf::<CosmeticsV2>(j->Obj_0, "items"@)
    }

    open spec fn json_models(&self, j: JsonModel) -> bool {
        &&& j is Obj
        &&& req_models(self.build, j->Obj_0, "build"@)
        &&& req_models(self.previous_build, j->Obj_0, "previousBuild"@)
        &&& req_models(self.hash, j->Obj_0, "hash"@)
        &&& req_models(self.date, j->Obj_0, "date"@)
        &&& req_models(self.last_addition, j->Obj_0, "lastAddition"@)
        &&& req_models(self.items, j->Obj_0, "items"@)
    }

    fn from_json(j: &Json) -> (r: Option<Self>) {
        let fields = match j {
            Json::Obj(f) => f,
            _ => {
                proof {
                    crate::codec::lemma_model_obj(*j);
                }
                return None;
            },
        };
        proof {
            crate::json::lemma_obj_model(*fields);
        }
        let build = match req_field::<String>(fields, "build") {
            Some(v) => v,
            None => {
                return None;
            },
        };
        let previous_build = match req_field::<String>(fields, "previousBuild") {
            Some(v) => v,
            None => {
                return None;
            },
        };
        let hash = match req_field::<String>(fields, "hash") {
            Some(v) => v,
            None => {
                return None;
            },
        };
        let date = match req_field::<Timestamp>(fields, "date") {
            Some(v) => v,
            None => {
                return None;
            },
        };
        let last_addition = match req_field::<Timestamp>(fields, "lastAddition") {
            Some(v) => v,
            None => {
                return None;
            },
        };
        let items = match req_field::<CosmeticsV2>(fields, "items") {
            Some(v) => v,
            None => {
                return None;
            },
        };
        Some(CosmeticsNewV2 { build, previous_build, hash, date, last_addition, items })
    }
}
/// One cosmetic item. The wire key `type` is held in `kind`.
#[derive(Debug, Clone, PartialEq, Eq, Hash)]
pub struct CosmeticV2 {
    pub id: String,
    pub name: String,
    pub description: String,
    pub kind: CosmeticValue,
    pub rarity: CosmeticValue,
    pub series: Option<CosmeticSeries>,
    pub set: Option<CosmeticSet>,
    pub introduction: Option<CosmeticIntroduction>,
    pub images: CosmeticImages,
    pub variants: Option<Vec<CosmeticVariant>>,
    pub built_in_emote_ids: Option<Vec<String>>,
    pub search_tags: Option<Vec<CosmeticSearchTags>>,
    pub gameplay_tags: Option<Vec<String>>,
    pub meta_tags: Option<Vec<String>>,
    pub showcase_video: Option<String>,
    pub dynamic_pak_id: Option<String>,
    pub display_asset_path: Option<String>,
    pub definition_path: Option<String>,
    pub path: Option<String>,
    pub added: Timestamp,
    pub shop_history: Option<Vec<Timestamp>>,
}

impl FromJson for CosmeticV2 {
    open spec fn json_wf(j: JsonModel) -> bool {
        &&& j is Obj
        &&& req_wf::<String>(j->Obj_0, "id"@)
        &&& req_wf::<String>(j->Obj_0, "name"@)
        &&& req_wf::<String>(j->Obj_0, "description"@)
        &&& req_wf::<CosmeticValue>(j->Obj_0, "type"@)
        &&& req_wf::<CosmeticValue>(j->Obj_0, "rarity"@)
        &&& opt_wf::<CosmeticSeries>(j->Obj_0, "series"@)
        &&& opt_wf::<CosmeticSet>(j->Obj_0, "set"@)
        &&& opt_wf::<CosmeticIntroduction>(j->Obj_0, "introduction"@)
        &&& req_wf::<CosmeticImages>(j->Obj_0, "images"@)
        &&& opt_wf::<Vec<CosmeticVariant>>(j->Obj_0, "variants"@)
        &&& opt_wf::<Vec<String>>(j->Obj_0, "builtInEmoteIds"@)
        &&& opt_wf::<Vec<CosmeticSearchTags>>(j->Obj_0, "searchTags"@)
        &&& opt_wf::<Vec<String>>(j->Obj_0, "gameplayTags"@)
        &&& opt_wf::<Vec<String>>(j->Obj_0, "metaTags"@)
        &&& opt_wf::<String>(j->Obj_0, "showcaseVideo"@)
        &&& opt_wf::<String>(j->Obj_0, "dynamicPakId"@)
        &&& opt_wf::<String>(j->Obj_0, "displayAssetPath"@)
        &&& opt_wf::<String>(j->Obj_0, "definitionPath"@)
        &&& opt_wf::<String>(j->Obj_0, "path"@)
        &&& req_wf::<Timestamp>(j->Obj_0, "added"@)
        &&& opt_wf::<Vec<Timestamp>>(j->Obj_0, "shopHistory"@)
    }

    open spec fn json_models(&self, j: JsonModel) -> bool {
        &&& j is Obj
        &&& req_models(self.id, j->Obj_0, "id"@)
        &&& req_models(self.name, j->Obj_0, "name"@)
        &&& req_models(self.description, j->Obj_0, "description"@)
        &&& req_models(self.kind, j->Obj_0, "type"@)
        &&& req_models(self.rarity, j->Obj_0, "rarity"@)
        &&& opt_models(self.series, j->Obj_0, "series"@)
        &&& opt_models(self.set, j->Obj_0, "set"@)
        &&& opt_models(self.introduction, j->Obj_0, "introduction"@)
        &&& req_models(self.images, j->Obj_0, "images"@)
        &&& opt_models(self.variants, j->Obj_0, "variants"@)
        &&& opt_models(self.built_in_emote_ids, j->Obj_0, "builtInEmoteIds"@)
        &&& opt_models(self.search_tags, j->Obj_0, "searchTags"@)
        &&& opt_models(self.gameplay_tags, j->Obj_0, "gameplayTags"@)
        &&& opt_models(self.meta_tags, j->Obj_0, "metaTags"@)
        &&& opt_models(self.showcase_video, j->Obj_0, "showcaseVideo"@)
        &&& opt_models(self.dynamic_pak_id, j->Obj_0, "dynamicPakId"@)
        &&& opt_models(self.display_asset_path, j->Obj_0, "displayAssetPath"@)
        &&& opt_models(self.definition_path, j->Obj_0, "definitionPath"@)
        &&& opt_models(self.path, j->Obj_0, "path"@)
        &&& req_models(self.added, j->Obj_0, "added"@)
        &&& opt_models(self.shop_history, j->Obj_0, "shopHistory"@)
    }

    #[verifier::rlimit(80)]
    fn from_json(j: &Json) -> (r: Option<Self>) {
        let fields = match j {
            Json::Obj(f) => f,
            _ => {
                proof {
                    crate::codec::lemma_model_obj(*j);
                }
                return None;
            },
        };
        proof {
            crate::json::lemma_obj_model(*fields);
        }
        let id = match req_field::<String>(fields, "id") {
            Some(v) => v,
            None => {
                return None;
            },
        };
        let name = match req_field::<String>(fields, "name") {
            Some(v) => v,
            None => {
                return None;
            },
        };
        let description = match req_field::<String>(fields, "description") {
            Some(v) => v,
            None => {
                return None;
            },
        };
        let kind = match req_field::<CosmeticValue>(fields, "type") {
            Some(v) => v,
            None => {
                return None;
            },
        };
        let rarity = match req_field::<CosmeticValue>(fields, "rarity") {
            Some(v) => v,
            None => {
                return None;
            },
        };
        let series = match opt_field::<CosmeticSeries>(fields, "series") {
            Some(v) => v,
            None => {
                return None;
            },
        };
        let set = match opt_field::<CosmeticSet>(fields, "set") {
            Some(v) => v,
            None => {
                return None;
            },
        };
        let introduction = match opt_field::<CosmeticIntroduction>(fields, "introduction") {
            Some(v) => v,
            None => {
                return None;
            },
        };
        let images = match req_field::<CosmeticImages>(fields, "images") {
            Some(v) => v,
            None => {
                return None;
            },
        };
        let variants = match opt_field::<Vec<CosmeticVariant>>(fields, "variants") {
            Some(v) => v,
            None => {
                return None;
            },
        };
        let built_in_emote_ids = match opt_field::<Vec<String>>(fields, "builtInEmoteIds") {
            Some(v) => v,
            None => {
                return None;
            },
        };
        let search_tags = match opt_field::<Vec<CosmeticSearchTags>>(fields, "searchTags") {
            Some(v) => v,
            None => {
                return None;
            },
        };
        let gameplay_tags = match opt_field::<Vec<String>>(fields, "gameplayTags") {
            Some(v) => v,
            None => {
                return None;
            },
        };
        let meta_tags = match opt_field::<Vec<String>>(fields, "metaTags") {
            Some(v) => v,
            None => {
                return None;
            },
        };
        let showcase_video = match opt_field::<String>(fields, "showcaseVideo") {
            Some(v) => v,
            None => {
                return None;
            },
        };
        let dynamic_pak_id = match opt_field::<String>(fields, "dynamicPakId") {
            Some(v) => v,
            None => {
                return None;
            },
        };
        let display_asset_path = match opt_field::<String>(fields, "displayAssetPath") {
            Some(v) => v,
            None => {
                return None;
            },
        };
        let definition_path = match opt_field::<String>(fields, "definitionPath") {
            Some(v) => v,
            None => {
                return None;
            },
        };
        let path = match opt_field::<String>(fields, "path") {
            Some(v) => v,
            None => {
                return None;
            },
        };
        let added = match req_field::<Timestamp>(fields, "added") {
            Some(v) => v,
            None => {
                return None;
            },
        };
        let shop_history = match opt_field::<Vec<Timestamp>>(fields, "shopHistory") {
            Some(v) => v,
            None => {
                return None;
            },
        };
        Some(CosmeticV2 { id, name, description, kind, rarity, series, set, introduction, images, variants, built_in_emote_ids, search_tags, gameplay_tags, meta_tags, showcase_video, dynamic_pak_id, display_asset_path, definition_path, path, added, shop_history })
    }
}
/// A named value with its display and backend forms.
#[derive(Debug, Clone, PartialEq, Eq, Hash)]
pub struct CosmeticValue {
    pub value: String,
    pub display_value: String,
    pub backend_value: String,
}

impl FromJson for CosmeticValue {
    open spec fn json_wf(j: JsonModel) -> bool {
        &&& j is Obj
        &&& req_wf::<String>(j->Obj_0, "value"@)
        &&& req_wf::<String>(j->Obj_0, "displayValue"@)
        &&& req_wf::<String>(j->Obj_0, "backendValue"@)
    }

    open spec fn json_models(&self, j: JsonModel) -> bool {
        &&& j is Obj
        &&& req_models(self.value, j->Obj_0, "value"@)
        &&& req_models(self.display_value, j->Obj_0, "displayValue"@)
        &&& req_models(self.backend_value, j->Obj_0, "backendValue"@)
    }

    fn from_json(j: &Json) -> (r: Option<Self>) {
        let fields = match j {
            Json::Obj(f) => f,
            _ => {
                proof {
                    crate::codec::lemma_model_obj(*j);
                }
                return None;
            },
        };
        proof {
            crate::json::lemma_obj_model(*fields);
        }
        let value = match req_field::<String>(fields, "value") {
            Some(v) => v,
            None => {
                return None;
            },
        };
        let display_value = match req_field::<String>(fields, "displayValue") {
            Some(v) => v,
            None => {
                return None;
            },
        };
        let backend_value = match req_field::<String>(fields, "backendValue") {
            Some(v) => v,
            None => {
                return None;
            },
        };
        Some(CosmeticValue { value, display_value, backend_value })
    }
}
/// The set a cosmetic belongs to.
#[derive(Debug, Clone, PartialEq, Eq, Hash)]
pub struct CosmeticSet {
    pub value: Option<String>,
    pub text: Option<String>,
    pub backend_value: String,
}

impl FromJson for CosmeticSet {
    open spec fn json_wf(j: JsonModel) -> bool {
        &&& j is Obj
        &&& opt_wf::<String>(j->Obj_0, "value"@)
        &&& opt_wf::<String>(j->Obj_0, "text"@)
        &&& req_wf::<String>(j->Obj_0, "backendValue"@)
    }

    open spec fn json_models(&self, j: JsonModel) -> bool {
        &&& j is Obj
        &&& opt_models(self.value, j->Obj_0, "value"@)
        &&& opt_models(self.text, j->Obj_0, "text"@)
        &&& req_models(self.backend_value, j->Obj_0, "backendValue"@)
    }

    fn from_json(j: &Json) -> (r: Option<Self>) {
        let fields = match j {
            Json::Obj(f) => f,
            _ => {
                proof {
                    crate::codec::lemma_model_obj(*j);
                }
                return None;
            },
        };
        proof {
            crate::json::lemma_obj_model(*fields);
        }
        let value = match opt_field::<String>(fields, "value") {
            Some(v) => v,
            None => {
                return None;
            },
        };
        let text = match opt_field::<String>(fields, "text") {
            Some(v) => v,
            None => {
                return None;
            },
        };
        let backend_value = match req_field::<String>(fields, "backendValue") {
            Some(v) => v,
            None => {
                return None;
            },
        };
        Some(CosmeticSet { value, text, backend_value })
    }
}
/// Where a cosmetic's images live.
#[derive(Debug, Clone, PartialEq, Eq, Hash)]
pub struct CosmeticImages {
    pub small_icon: Option<String>,
    pub icon: Option<String>,
    pub featured: Option<String>,
    pub lego: Option<CosmeticImagesLego>,
    pub other: Option<CosmeticImagesOther>,
}

impl FromJson for CosmeticImages {
    open spec fn json_wf(j: JsonModel) -> bool {
        &&& j is Obj
        &&& opt_wf::<String>(j->Obj_0, "smallIcon"@)
        &&& opt_wf::<String>(j->Obj_0, "icon"@)
        &&& opt_wf::<String>(j->Obj_0, "featured"@)
        &&& opt_wf::<CosmeticImagesLego>(j->Obj_0, "lego"@)
        &&& opt_wf::<CosmeticImagesOther>(j->Obj_0, "other"@)
    }

    open spec fn json_models(&self, j: JsonModel) -> bool {
        &&& j is Obj
        &&& opt_models(self.small_icon, j->Obj_0, "smallIcon"@)
        &&& opt_models(self.icon, j->Obj_0, "icon"@)
        &&& opt_models(self.featured, j->Obj_0, "featured"@)
        &&& opt_models(self.lego, j->Obj_0, "lego"@)
        &&& opt_models(self.other, j->Obj_0, "other"@)
    }

    fn from_json(j: &Json) -> (r: Option<Self>) {
        let fields = match j {
            Json::Obj(f) => f,
            _ => {
                proof {
                    crate::codec::lemma_model_obj(*j);
                }
                return None;
            },
        };
        proof {
            crate::json::lemma_obj_model(*fields);
        }
        let small_icon = match opt_field::<String>(fields, "smallIcon") {
            Some(v) => v,
            None => {
                return None;
            },
        };
        let icon = match opt_field::<String>(fields, "icon") {
            Some(v) => v,
            None => {
                return None;
            },
        };
        let featured = match opt_field::<String>(fields, "featured") {
            Some(v) => v,
            None => {
                return None;
            },
        };
        let lego = match opt_field::<CosmeticImagesLego>(fields, "lego") {
            Some(v) => v,
            None => {
                return None;
            },
        };
        let other = match opt_field::<CosmeticImagesOther>(fields, "other") {
            Some(v) => v,
            None => {
                return None;
            },
        };
        Some(CosmeticImages { small_icon, icon, featured, lego, other })
    }
}
/// The LEGO renders of a cosmetic.
#[derive(Debug, Clone, PartialEq, Eq, Hash)]
pub struct CosmeticImagesLego {
    pub small: String,
    pub large: String,
    pub wide: Option<String>,
}

impl FromJson for CosmeticImagesLego {
    open spec fn json_wf(j: JsonModel) -> bool {
        &&& j is Obj
        &&& req_wf::<String>(j->Obj_0, "small"@)
        &&& req_wf::<String>(j->Obj_0, "large"@)
        &&& opt_wf::<String>(j->Obj_0, "wide"@)
    }

    open spec fn json_models(&self, j: JsonModel) -> bool {
        &&& j is Obj
        &&& req_models(self.small, j->Obj_0, "small"@)
        &&& req_models(self.large, j->Obj_0, "large"@)
        &&& opt_models(self.wide, j->Obj_0, "wide"@)
    }

    fn from_json(j: &Json) -> (r: Option<Self>) {
        let fields = match j {
            Json::Obj(f) => f,
            _ => {
                proof {
                    crate::codec::lemma_model_obj(*j);
                }
                return None;
            },
        };
        proof {
            crate::json::lemma_obj_model(*fields);
        }
        let small = match req_field::<String>(fields, "small") {
            Some(v) => v,
            None => {
                return None;
            },
        };
        let large = match req_field::<String>(fields, "large") {
            Some(v) => v,
            None => {
                return None;
            },
        };
        let wide = match opt_field::<String>(fields, "wide") {
            Some(v) => v,
            None => {
                return None;
            },
        };
        Some(CosmeticImagesLego { small, large, wide })
    }
}
/// Further images of a cosmetic.
#[derive(Debug, Clone, PartialEq, Eq, Hash)]
pub struct CosmeticImagesOther {
    pub background: Option<String>,
    pub coverart: Option<String>,
}

impl FromJson for CosmeticImagesOther {
    open spec fn json_wf(j: JsonModel) -> bool {
        &&& j is Obj
        &&& opt_wf::<String>(j->Obj_0, "background"@)
        &&& opt_wf::<String>(j->Obj_0, "coverart"@)
    }

    open spec fn json_models(&self, j: JsonModel) -> bool {
        &&& j is Obj
        &&& opt_models(self.background, j->Obj_0, "background"@)
        &&& opt_models(self.coverart, j->Obj_0, "coverart"@)
    }

    fn from_json(j: &Json) -> (r: Option<Self>) {
        let fields = match j {
            Json::Obj(f) => f,
            _ => {
                proof {
                    crate::codec::lemma_model_obj(*j);
                }
                return None;
            },
        };
        proof {
            crate::json::lemma_obj_model(*fields);
        }
        let background = match opt_field::<String>(fields, "background") {
            Some(v) => v,
            None => {
                return None;
            },
        };
        let coverart = match opt_field::<String>(fields, "coverart") {
            Some(v) => v,
            None => {
                return None;
            },
        };
        Some(CosmeticImagesOther { background, coverart })
    }
}
/// When a cosmetic first appeared.
#[derive(Debug, Clone, PartialEq, Eq, Hash)]
pub struct CosmeticIntroduction {
    pub chapter: String,
    pub season: String,
    pub text: String,
    pub backend_value: Option<u8>,
}

impl FromJson for CosmeticIntroduction {
    open spec fn json_wf(j: JsonModel) -> bool {
        &&& j is Obj
        &&& req_wf::<String>(j->Obj_0, "chapter"@)
        &&& req_wf::<String>(j->Obj_0, "season"@)
        &&& req_wf::<String>(j->Obj_0, "text"@)
        &&& opt_wf::<u8>(j->Obj_0, "backendValue"@)
    }

    open spec fn json_models(&self, j: JsonModel) -> bool {
        &&& j is Obj
        &&& req_models(self.chapter, j->Obj_0, "chapter"@)
        &&& req_models(self.season, j->Obj_0, "season"@)
        &&& req_models(self.text, j->Obj_0, "text"@)
        &&& opt_models(self.backend_value, j->Obj_0, "backendValue"@)
    }

    fn from_json(j: &Json) -> (r: Option<Self>) {
        let fields = match j {
            Json::Obj(f) => f,
            _ => {
                proof {
                    crate::codec::lemma_model_obj(*j);
                }
                return None;
            },
        };
        proof {
            crate::json::lemma_obj_model(*fields);
        }
        let chapter = match req_field::<String>(fields, "chapter") {
            Some(v) => v,
            None => {
                return None;
            },
        };
        let season = match req_field::<String>(fields, "season") {
            Some(v) => v,
            None => {
                return None;
            },
        };
        let text = match req_field::<String>(fields, "text") {
            Some(v) => v,
            None => {
                return None;
            },
        };
        let backend_value = match opt_field::<u8>(fields, "backendValue") {
            Some(v) => v,
            None => {
                return None;
            },
        };
        Some(CosmeticIntroduction { chapter, season, text, backend_value })
    }
}
/// The series a cosmetic belongs to.
#[derive(Debug, Clone, PartialEq, Eq, Hash)]
pub struct CosmeticSeries {
    pub value: String,
    pub image: Option<String>,
    pub colors: Vec<String>,
    pub backend_value: String,
}

impl FromJson for CosmeticSeries {
    open spec fn json_wf(j: JsonModel) -> bool {
        &&& j is Obj
        &&& req_wf::<String>(j->Obj_0, "value"@)
        &&& opt_wf::<String>(j->Obj_0, "image"@)
        &&& req_wf::<Vec<String>>(j->Obj_0, "colors"@)
        &&& req_wf::<String>(j->Obj_0, "backendValue"@)
    }

    open spec fn json_models(&self, j: JsonModel) -> bool {
        &&& j is Obj
        &&& req_models(self.value, j->Obj_0, "value"@)
        &&& opt_models(self.image, j->Obj_0, "image"@)
        &&& req_models(self.colors, j->Obj_0, "colors"@)
        &&& req_models(self.backend_value, j->Obj_0, "backendValue"@)
    }

    fn from_json(j: &Json) -> (r: Option<Self>) {
        let fields = match j {
            Json::Obj(f) => f,
            _ => {
                proof {
                    crate::codec::lemma_model_obj(*j);
                }
                return None;
            },
        };
        proof {
            crate::json::lemma_obj_model(*fields);
        }
        let value = match req_field::<String>(fields, "value") {
            Some(v) => v,
            None => {
                return None;
            },
        };
        let image = match opt_field::<String>(fields, "image") {
            Some(v) => v,
            None => {
                return None;
            },
        };
        let colors = match req_field::<Vec<String>>(fields, "colors") {
            Some(v) => v,
            None => {
                return None;
            },
        };
        let backend_value = match req_field::<String>(fields, "backendValue") {
            Some(v) => v,
            None => {
                return None;
            },
        };
        Some(CosmeticSeries { value, image, colors, backend_value })
    }
}
/// The tags the catalog can be searched by.
#[derive(Debug, Clone, Copy, PartialEq, Eq, Hash)]
pub enum CosmeticSearchTags {
    Bear,
    Food,
    Haze,
    Pink,
    Summer,
    Superman,
    Umbrella,
    Western,
    Winter,
    Yellow,
}

impl CosmeticSearchTags {
    /// The token this value is written as on the wire.
    pub open spec fn wire(&self) -> Seq<char> {
        match self {
            CosmeticSearchTags::Bear => "Bear"@,
            CosmeticSearchTags::Food => "Food"@,
            CosmeticSearchTags::Haze => "Haze"@,
            CosmeticSearchTags::Pink => "Pink"@,
            CosmeticSearchTags::Summer => "Summer"@,
            CosmeticSearchTags::Superman => "Superman"@,
            CosmeticSearchTags::Umbrella => "Umbrella"@,
            CosmeticSearchTags::Western => "Western"@,
            CosmeticSearchTags::Winter => "Winter"@,
            CosmeticSearchTags::Yellow => "Yellow"@,
        }
    }

    /// The token this value is written as on the wire.
    pub fn wire_str(&self) -> (r: &str)
        ensures
            r@ == self.wire(),
    {
        match self {
            CosmeticSearchTags::Bear => "Bear",
            CosmeticSearchTags::Food => "Food",
            CosmeticSearchTags::Haze => "Haze",
            CosmeticSearchTags::Pink => "Pink",
            CosmeticSearchTags::Summer => "Summer",
            CosmeticSearchTags::Superman => "Superman",
            CosmeticSearchTags::Umbrella => "Umbrella",
            CosmeticSearchTags::Western => "Western",
            CosmeticSearchTags::Winter => "Winter",
            CosmeticSearchTags::Yellow => "Yellow",
        }
    }
}

impl FromJson for CosmeticSearchTags {
    open spec fn json_wf(j: JsonModel) -> bool {
        j matches JsonModel::Str(s) && (s == "Bear"@ || s == "Food"@ || s == "Haze"@ || s == "Pink"@ || s == "Summer"@ || s == "Superman"@ || s == "Umbrella"@ || s == "Western"@ || s == "Winter"@ || s == "Yellow"@)
    }

    open spec fn json_models(&self, j: JsonModel) -> bool {
        j == JsonModel::Str(self.wire())
    }

    fn from_json(j: &Json) -> (r: Option<Self>) {
        match j {
            Json::Str(s) => {
                if crate::text::str_eq(s.as_str(), "Bear") {
                    Some(CosmeticSearchTags::Bear)
                } else if crate::text::str_eq(s.as_str(), "Food") {
                    Some(CosmeticSearchTags::Food)
                } else if crate::text::str_eq(s.as_str(), "Haze") {
                    Some(CosmeticSearchTags::Haze)
                } else if crate::text::str_eq(s.as_str(), "Pink") {
                    Some(CosmeticSearchTags::Pink)
                } else if crate::text::str_eq(s.as_str(), "Summer") {
                    Some(CosmeticSearchTags::Summer)
                } else if crate::text::str_eq(s.as_str(), "Superman") {
                    Some(CosmeticSearchTags::Superman)
                } else if crate::text::str_eq(s.as_str(), "Umbrella") {
                    Some(CosmeticSearchTags::Umbrella)
                } else if crate::text::str_eq(s.as_str(), "Western") {
                    Some(CosmeticSearchTags::Western)
                } else if crate::text::str_eq(s.as_str(), "Winter") {
                    Some(CosmeticSearchTags::Winter)
                } else if crate::text::str_eq(s.as_str(), "Yellow") {
                    Some(CosmeticSearchTags::Yellow)
                } else {
                    None
                }
            },
            _ => None,
        }
    }
}
/// One variant channel of a cosmetic. The wire key `type` is held in `kind`.
#[derive(Debug, Clone, PartialEq, Eq, Hash)]
pub struct CosmeticVariant {
    pub channel: String,
    pub kind: Option<String>,
    pub options: Vec<CosmeticVariantOption>,
}

impl FromJson for CosmeticVariant {
    open spec fn json_wf(j: JsonModel) -> bool {
        &&& j is Obj
        &&& req_wf::<String>(j->Obj_0, "channel"@)
        &&& opt_wf::<String>(j->Obj_0, "type"@)
        &&& req_wf::<Vec<CosmeticVariantOption>>(j->Obj_0, "options"@)
    }

    open spec fn json_models(&self, j: JsonModel) -> bool {
        &&& j is Obj
        &&& req_models(self.channel, j->Obj_0, "channel"@)
        &&& opt_models(self.kind, j->Obj_0, "type"@)
        &&& req_models(self.options, j->Obj_0, "options"@)
    }

    fn from_json(j: &Json) -> (r: Option<Self>) {
        let fields = match j {
            Json::Obj(f) => f,
            _ => {
                proof {
                    crate::codec::lemma_model_obj(*j);
                }
                return None;
            },
        };
        proof {
            crate::json::lemma_obj_model(*fields);
        }
        let channel = match req_field::<String>(fields, "channel") {
            Some(v) => v,
            None => {
                return None;
            },
        };
        let kind = match opt_field::<String>(fields, "type") {
            Some(v) => v,
            None => {
                return None;
            },
        };
        let options = match req_field::<Vec<CosmeticVariantOption>>(fields, "options") {
            Some(v) => v,
            None => {
                return None;
            },
        };
        Some(CosmeticVariant { channel, kind, options })
    }
}
/// One option of a variant channel.
#[derive(Debug, Clone, PartialEq, Eq, Hash)]
pub struct CosmeticVariantOption {
    pub tag: String,
    pub name: Option<String>,
    pub image: String,
}

impl FromJson for CosmeticVariantOption {
    open spec fn json_wf(j: JsonModel) -> bool {
        &&& j is Obj
        &&& req_wf::<String>(j->Obj_0, "tag"@)
        &&& opt_wf::<String>(j->Obj_0, "name"@)
        &&& req_wf::<String>(j->Obj_0, "image"@)
    }

    open spec fn json_models(&self, j: JsonModel) -> bool {
        &&& j is Obj
        &&& req_models(self.tag, j->Obj_0, "tag"@)
        &&& opt_models(self.name, j->Obj_0, "name"@)
        &&& req_models(self.image, j->Obj_0, "image"@)
    }

    fn from_json(j: &Json) -> (r: Option<Self>) {
        let fields = match j {
            Json::Obj(f) => f,
            _ => {
                proof {
                    crate::codec::lemma_model_obj(*j);
                }
                return None;
            },
        };
        proof {
            crate::json::lemma_obj_model(*fields);
        }
        let tag = match req_field::<String>(fields, "tag") {
            Some(v) => v,
            None => {
                return None;
            },
        };
        let name = match opt_field::<String>(fields, "name") {
            Some(v) => v,
            None => {
                return None;
            },
        };
        let image = match req_field::<String>(fields, "image") {
            Some(v) => v,
            None => {
                return None;
            },
        };
        Some(CosmeticVariantOption { tag, name, image })
    }
}
} // verus!
