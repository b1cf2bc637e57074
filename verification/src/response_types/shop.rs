//! The shop listings.

use vstd::prelude::*;
use crate::codec::{FromJson, req_wf, req_models, opt_wf, opt_models, req_field, opt_field};
use crate::json::{Json, JsonModel};
use crate::codec::NumberMap;
use crate::response_types::cosmetics::CosmeticsV2;
use crate::time::Timestamp;

verus! {

/// The shop as it stands.
#[derive(Debug, Clone, PartialEq, Eq, Hash)]
pub struct ShopV2 {
    pub hash: String,
    pub date: Timestamp,
    pub vbuck_icon: String,
    pub featured: ShopFeatured,
}

impl FromJson for ShopV2 {
    open spec fn json_wf(j: JsonModel) -> bool {
        &&& j is Obj
        &&& req_wf::<String>(j->Obj_0, "hash"@)
        &&& req_wf::<Timestamp>(j->Obj_0, "date"@)
        &&& req_wf::<String>(j->Obj_0, "vbuckIcon"@)
        &&& req_wf::<ShopFeatured>(j->Obj_0, "featured"@)
    }

    open spec fn json_models(&self, j: JsonModel) -> bool {
        &&& j is Obj
        &&& req_models(self.hash, j->Obj_0, "hash"@)
        &&& req_models(self.date, j->Obj_0, "date"@)
        &&& req_models(self.vbuck_icon, j->Obj_0, "vbuckIcon"@)
        &&& req_models(self.featured, j->Obj_0, "featured"@)
    }

    fn from_json(j: &Json) -> (r: Option<Self>) {
        let fields = match j {
            Json::Obj(f) => f,
            _ => {
                proof {
                    crate::codec::lemma_model_obj(*j);
                }
                return None;
            },
        };
        proof {
            crate::json::lemma_obj_model(*fields);
        }
        let hash = match req_field::<String>(fields, "hash") {
            Some(v) => v,
            None => {
                return None;
            },
        };
        let date = match req_field::<Timestamp>(fields, "date") {
            Some(v) => v,
            None => {
                return None;
            },
        };
        let vbuck_icon = match req_field::<String>(fields, "vbuckIcon") {
            Some(v) => v,
            None => {
                return None;
            },
        };
        let featured = match req_field::<ShopFeatured>(fields, "featured") {
            Some(v) => v,
            None => {
                return None;
            },
        };
        Some(ShopV2 { hash, date, vbuck_icon, featured })
    }
}
/// The featured section of the shop.
#[derive(Debug, Clone, PartialEq, Eq, Hash)]
pub struct ShopFeatured {
    pub name: String,
    pub entries: Vec<ShopFeaturedEntry>,
}

impl FromJson for ShopFeatured {
    open spec fn json_wf(j: JsonModel) -> bool {
        &&& j is Obj
        &&& req_wf::<String>(j->Obj_0, "name"@)
        &&& req_wf::<Vec<ShopFeaturedEntry>>(j->Obj_0, "entries"@)
    }

    open spec fn json_models(&self, j: JsonModel) -> bool {
        &&& j is Obj
        &&& req_models(self.name, j->Obj_0, "name"@)
        &&& req_models(self.entries, j->Obj_0, "entries"@)
    }

    fn from_json(j: &Json) -> (r: Option<Self>) {
        let fields = match j {
            Json::Obj(f) => f,
            _ => {
                proof {
                    crate::codec::lemma_model_obj(*j);
                }
                return None;
            },
        };
        proof {
            crate::json::lemma_obj_model(*fields);
        }
        let name = match req_field::<String>(fields, "name") {
            Some(v) => v,
            None => {
                return None;
            },
        };
        let entries = match req_field::<Vec<ShopFeaturedEntry>>(fields, "entries") {
            Some(v) => v,
            None => {
                return None;
            },
        };
        Some(ShopFeatured { name, entries })
    }
}
/// One offer of the featured section.
#[derive(Debug, Clone, PartialEq, Eq, Hash)]
pub struct ShopFeaturedEntry {
    pub regular_price: u64,
    pub final_price: u64,
    pub bundle: Option<ShopFeaturedEntryBundle>,
    pub banner: Option<ShopFeaturedEntryBanner>,
    pub giftable: bool,
    pub refundable: bool,
    pub sort_priority: i64,
    pub section_id: String,
    pub layout: ShopFeaturedEntryLayout,
    pub dev_name: String,
    pub offer_id: String,
    pub display_asset_path: Option<String>,
    pub tile_size: String,
    pub new_display_asset_path: String,
    pub new_display_asset: ShopFeaturedEntryDisplayAsset,
    pub items: CosmeticsV2,
}

impl FromJson for ShopFeaturedEntry {
    open spec fn json_wf(j: JsonModel) -> bool {
        &&& j is Obj
        &&& req_wf::<u64>(j->Obj_0, "regularPrice"@)
        &&& req_wf::<u64>(j->Obj_0, "finalPrice"@)
        &&& opt_wf::<ShopFeaturedEntryBundle>(j->Obj_0, "bundle"@)
        &&& opt_wf::<ShopFeaturedEntryBanner>(j->Obj_0, "banner"@)
        &&& req_wf::<bool>(j->Obj_0, "giftable"@)
        &&& req_wf::<bool>(j->Obj_0, "refundable"@)
        &&& req_wf::<i64>(j->Obj_0, "sortPriority"@)
        &&& req_wf::<String>(j->Obj_0, "sectionId"@)
        &&& req_wf::<ShopFeaturedEntryLayout>(j->Obj_0, "layout"@)
        &&& req_wf::<String>(j->Obj_0, "devName"@)
        &&& req_wf::<String>(j->Obj_0, "offerId"@)
        &&& opt_wf::<String>(j->Obj_0, "displayAssetPath"@)
        &&& req_wf::<String>(j->Obj_0, "tileSize"@)
        &&& req_wf::<String>(j->Obj_0, "newDisplayAssetPath"@)
        &&& req_wf::<ShopFeaturedEntryDisplayAsset>(j->Obj_0, "newDisplayAsset"@)
        &&& req_wf::<CosmeticsV2>(j->Obj_0, "items"@)
    }

    open spec fn json_models(&self, j: JsonModel) -> bool {
        &&& j is Obj
        &&& req_models(self.regular_price, j->Obj_0, "regularPrice"@)
        &&& req_models(self.final_price, j->Obj_0, "finalPrice"@)
        &&& opt_models(self.bundle, j->Obj_0, "bundle"@)
        &&& opt_models(self.banner, j->Obj_0, "banner"@)
        &&& req_models(self.giftable, j->Obj_0, "giftable"@)
        &&& req_models(self.refundable, j->Obj_0, "refundable"@)
        &&& req_models(self.sort_priority, j->Obj_0, "sortPriority"@)
        &&& req_models(self.section_id, j->Obj_0, "sectionId"@)
        &&& req_models(self.layout, j->Obj_0, "layout"@)
        &&& req_models(self.dev_name, j->Obj_0, "devName"@)
        &&& req_models(self.offer_id, j->Obj_0, "offerId"@)
        &&& opt_models(self.display_asset_path, j->Obj_0, "displayAssetPath"@)
        &&& req_models(self.tile_size, j->Obj_0, "tileSize"@)
        &&& req_models(self.new_display_asset_path, j->Obj_0, "newDisplayAssetPath"@)
        &&& req_models(self.new_display_asset, j->Obj_0, "newDisplayAsset"@)
        &&& req_models(self.items, j->Obj_0, "items"@)
    }

    #[verifier::rlimit(80)]
    fn from_json(j: &Json) -> (r: Option<Self>) {
        let fields = match j {
            Json::Obj(f) => f,
            _ => {
                proof {
                    crate::codec::lemma_model_obj(*j);
                }
                return None;
            },
        };
        proof {
            crate::json::lemma_obj_model(*fields);
        }
        let regular_price = match req_field::<u64>(fields, "regularPrice") {
            Some(v) => v,
            None => {
                return None;
            },
        };
        let final_price = match req_field::<u64>(fields, "finalPrice") {
            Some(v) => v,
            None => {
                return None;
            },
        };
        let bundle = match opt_field::<ShopFeaturedEntryBundle>(fields, "bundle") {
            Some(v) => v,
            None => {
                return None;
            },
        };
        let banner = match opt_field::<ShopFeaturedEntryBanner>(fields, "banner") {
            Some(v) => v,
            None => {
                return None;
            },
        };
        let giftable = match req_field::<bool>(fields, "giftable") {
            Some(v) => v,
            None => {
                return None;
            },
        };
        let refundable = match req_field::<bool>(fields, "refundable") {
            Some(v) => v,
            None => {
                return None;
            },
        };
        let sort_priority = match req_field::<i64>(fields, "sortPriority") {
            Some(v) => v,
            None => {
                return None;
            },
        };
        let section_id = match req_field::<String>(fields, "sectionId") {
            Some(v) => v,
            None => {
                return None;
            },
        };
        let layout = match req_field::<ShopFeaturedEntryLayout>(fields, "layout") {
            Some(v) => v,
            None => {
                return None;
            },
        };
        let dev_name = match req_field::<String>(fields, "devName") {
            Some(v) => v,
            None => {
                return None;
            },
        };
        let offer_id = match req_field::<String>(fields, "offerId") {
            Some(v) => v,
            None => {
                return None;
            },
        };
        let display_asset_path = match opt_field::<String>(fields, "displayAssetPath") {
            Some(v) => v,
            None => {
                return None;
            },
        };
        let tile_size = match req_field::<String>(fields, "tileSize") {
            Some(v) => v,
            None => {
                return None;
            },
        };
        let new_display_asset_path = match req_field::<String>(fields, "newDisplayAssetPath") {
            Some(v) => v,
            None => {
                return None;
            },
        };
        let new_display_asset = match req_field::<ShopFeaturedEntryDisplayAsset>(fields, "newDisplayAsset") {
            Some(v) => v,
            None => {
                return None;
            },
        };
        let items = match req_field::<CosmeticsV2>(fields, "items") {
            Some(v) => v,
            None => {
                return None;
            },
        };
        Some(ShopFeaturedEntry { regular_price, final_price, bundle, banner, giftable, refundable, sort_priority, section_id, layout, dev_name, offer_id, display_asset_path, tile_size, new_display_asset_path, new_display_asset, items })
    }
}
/// The bundle an offer sells.
#[derive(Debug, Clone, PartialEq, Eq, Hash)]
pub struct ShopFeaturedEntryBundle {
    pub name: String,
    pub info: String,
    pub image: String,
}

impl FromJson for ShopFeaturedEntryBundle {
    open spec fn json_wf(j: JsonModel) -> bool {
        &&& j is Obj
        &&& req_wf::<String>(j->Obj_0, "name"@)
        &&& req_wf::<String>(j->Obj_0, "info"@)
        &&& req_wf::<String>(j->Obj_0, "image"@)
    }

    open spec fn json_models(&self, j: JsonModel) -> bool {
        &&& j is Obj
        &&& req_models(self.name, j->Obj_0, "name"@)
        &&& req_models(self.info, j->Obj_0, "info"@)
        &&& req_models(self.image, j->Obj_0, "image"@)
    }

    fn from_json(j: &Json) -> (r: Option<Self>) {
        let fields = match j {
            Json::Obj(f) => f,
            _ => {
                proof {
                    crate::codec::lemma_model_obj(*j);
                }
                return None;
            },
        };
        proof {
            crate::json::lemma_obj_model(*fields);
        }
        let name = match req_field::<String>(fields, "name") {
            Some(v) => v,
            None => {
                return None;
            },
        };
        let info = match req_field::<String>(fields, "info") {
            Some(v) => v,
            None => {
                return None;
            },
        };
        let image = match req_field::<String>(fields, "image") {
            Some(v) => v,
            None => {
                return None;
            },
        };
        Some(ShopFeaturedEntryBundle { name, info, image })
    }
}
/// The banner shown over an offer.
#[derive(Debug, Clone, PartialEq, Eq, Hash)]
pub struct ShopFeaturedEntryBanner {
    pub value: String,
    pub intensity: String,
    pub backend_value: String,
}

impl FromJson for ShopFeaturedEntryBanner {
    open spec fn json_wf(j: JsonModel) -> bool {
        &&& j is Obj
        &&& req_wf::<String>(j->Obj_0, "value"@)
        &&& req_wf::<String>(j->Obj_0, "intensity"@)
        &&& req_wf::<String>(j->Obj_0, "backendValue"@)
    }

    open spec fn json_models(&self, j: JsonModel) -> bool {
        &&& j is Obj
        &&& req_models(self.value, j->Obj_0, "value"@)
        &&& req_models(self.intensity, j->Obj_0, "intensity"@)
        &&& req_models(self.backend_value, j->Obj_0, "backendValue"@)
    }

    fn from_json(j: &Json) -> (r: Option<Self>) {
        let fields = match j {
            Json::Obj(f) => f,
            _ => {
                proof {
                    crate::codec::lemma_model_obj(*j);
                }
                return None;
            },
        };
        proof {
            crate::json::lemma_obj_model(*fields);
        }
        let value = match req_field::<String>(fields, "value") {
            Some(v) => v,
            None => {
                return None;
            },
        };
        let intensity = match req_field::<String>(fields, "intensity") {
            Some(v) => v,
            None => {
                return None;
            },
        };
        let backend_value = match req_field::<String>(fields, "backendValue") {
            Some(v) => v,
            None => {
                return None;
            },
        };
        Some(ShopFeaturedEntryBanner { value, intensity, backend_value })
    }
}
/// Where an offer sits in the shop layout.
#[derive(Debug, Clone, PartialEq, Eq, Hash)]
pub struct ShopFeaturedEntryLayout {
    pub id: String,
    pub name: String,
    pub category: Option<String>,
    pub index: i64,
    pub show_ineligible_offers: String,
    pub background: Option<String>,
}

impl FromJson for ShopFeaturedEntryLayout {
    open spec fn json_wf(j: JsonModel) -> bool {
        &&& j is Obj
        &&& req_wf::<String>(j->Obj_0, "id"@)
        &&& req_wf::<String>(j->Obj_0, "name"@)
        &&& opt_wf::<String>(j->Obj_0, "category"@)
        &&& req_wf::<i64>(j->Obj_0, "index"@)
        &&& req_wf::<String>(j->Obj_0, "showIneligibleOffers"@)
        &&& opt_wf::<String>(j->Obj_0, "background"@)
    }

    open spec fn json_models(&self, j: JsonModel) -> bool {
        &&& j is Obj
        &&& req_models(self.id, j->Obj_0, "id"@)
        &&& req_models(self.name, j->Obj_0, "name"@)
        &&& opt_models(self.category, j->Obj_0, "category"@)
        &&& req_models(self.index, j->Obj_0, "index"@)
        &&& req_models(self.show_ineligible_offers, j->Obj_0, "showIneligibleOffers"@)
        &&& opt_models(self.background, j->Obj_0, "background"@)
    }

    fn from_json(j: &Json) -> (r: Option<Self>) {
        let fields = match j {
            Json::Obj(f) => f,
            _ => {
                proof {
                    crate::codec::lemma_model_obj(*j);
                }
                return None;
            },
        };
        proof {
            crate::json::lemma_obj_model(*fields);
        }
        let id = match req_field::<String>(fields, "id") {
            Some(v) => v,
            None => {
                return None;
            },
        };
        let name = match req_field::<String>(fields, "name") {
            Some(v) => v,
            None => {
                return None;
            },
        };
        let category = match opt_field::<String>(fields, "category") {
            Some(v) => v,
            None => {
                return None;
            },
        };
        let index = match req_field::<i64>(fields, "index") {
            Some(v) => v,
            None => {
                return None;
            },
        };
        let show_ineligible_offers = match req_field::<String>(fields, "showIneligibleOffers") {
            Some(v) => v,
            None => {
                return None;
            },
        };
        let background = match opt_field::<String>(fields, "background") {
            Some(v) => v,
            None => {
                return None;
            },
        };
        Some(ShopFeaturedEntryLayout { id, name, category, index, show_ineligible_offers, background })
    }
}
/// The display asset an offer is drawn with.
#[derive(Debug, Clone, PartialEq, Eq, Hash)]
pub struct ShopFeaturedEntryDisplayAsset {
    pub id: String,
    pub cosmetic_id: Option<String>,
    pub material_instances: Vec<ShopFeaturedEntryDisplayAssetMaterialInstance>,
}

impl FromJson for ShopFeaturedEntryDisplayAsset {
    open spec fn json_wf(j: JsonModel) -> bool {
        &&& j is Obj
        &&& req_wf::<String>(j->Obj_0, "id"@)
        &&& opt_wf::<String>(j->Obj_0, "cosmeticId"@)
        &&& req_wf::<Vec<ShopFeaturedEntryDisplayAssetMaterialInstance>>(j->Obj_0, "materialInstances"@)
    }

    open spec fn json_models(&self, j: JsonModel) -> bool {
        &&& j is Obj
        &&& req_models(self.id, j->Obj_0, "id"@)
        &&& opt_models(self.cosmetic_id, j->Obj_0, "cosmeticId"@)
        &&& req_models(self.material_instances, j->Obj_0, "materialInstances"@)
    }

    fn from_json(j: &Json) -> (r: Option<Self>) {
        let fields = match j {
            Json::Obj(f) => f,
            _ => {
                proof {
                    crate::codec::lemma_model_obj(*j);
                }
                return None;
            },
        };
        proof {
            crate::json::lemma_obj_model(*fields);
        }
        let id = match req_field::<String>(fields, "id") {
            Some(v) => v,
            None => {
                return None;
            },
        };
        let cosmetic_id = match opt_field::<String>(fields, "cosmeticId") {
            Some(v) => v,
            None => {
                return None;
            },
        };
        let material_instances = match req_field::<Vec<ShopFeaturedEntryDisplayAssetMaterialInstance>>(fields, "materialInstances") {
            Some(v) => v,
            None => {
                return None;
            },
        };
        Some(ShopFeaturedEntryDisplayAsset { id, cosmetic_id, material_instances })
    }
}
/// One material instance of a display asset.
#[derive(Debug, Clone, PartialEq, Eq, Hash)]
pub struct ShopFeaturedEntryDisplayAssetMaterialInstance {
    pub id: String,
    pub primary_mode: String,
    pub images: ShopFeaturedEntryDisplayAssetMaterialInstanceImages,
    pub colors: ShopFeaturedEntryDisplayAssetMaterialInstanceColors,
    pub scalings: NumberMap,
}

impl FromJson for ShopFeaturedEntryDisplayAssetMaterialInstance {
    open spec fn json_wf(j: JsonModel) -> bool {
        &&& j is Obj
        &&& req_wf::<String>(j->Obj_0, "id"@)
        &&& req_wf::<String>(j->Obj_0, "primaryMode"@)
        &&& req_wf::<ShopFeaturedEntryDisplayAssetMaterialInstanceImages>(j->Obj_0, "images"@)
        &&& req_wf::<ShopFeaturedEntryDisplayAssetMaterialInstanceColors>(j->Obj_0, "colors"@)
        &&& req_wf::<NumberMap>(j->Obj_0, "scalings"@)
    }

    open spec fn json_models(&self, j: JsonModel) -> bool {
        &&& j is Obj
        &&& req_models(self.id, j->Obj_0, "id"@)
        &&& req_models(self.primary_mode, j->Obj_0, "primaryMode"@)
        &&& req_models(self.images, j->Obj_0, "images"@)
        &&& req_models(self.colors, j->Obj_0, "colors"@)
        &&& req_models(self.scalings, j->Obj_0, "scalings"@)
    }

    fn from_json(j: &Json) -> (r: Option<Self>) {
        let fields = match j {
            Json::Obj(f) => f,
            _ => {
                proof {
                    crate::codec::lemma_model_obj(*j);
                }
                return None;
            },
        };
        proof {
            crate::json::lemma_obj_model(*fields);
        }
        let id = match req_field::<String>(fields, "id") {
            Some(v) => v,
            None => {
                return None;
            },
        };
        let primary_mode = match req_field::<String>(fields, "primaryMode") {
            Some(v) => v,
            None => {
                return None;
            },
        };
        let images = match req_field::<ShopFeaturedEntryDisplayAssetMaterialInstanceImages>(fields, "images") {
            Some(v) => v,
            None => {
                return None;
            },
        };
        let colors = match req_field::<ShopFeaturedEntryDisplayAssetMaterialInstanceColors>(fields, "colors") {
            Some(v) => v,
            None => {
                return None;
            },
        };
        let scalings = match req_field::<NumberMap>(fields, "scalings") {
            Some(v) => v,
            None => {
                return None;
            },
        };
        Some(ShopFeaturedEntryDisplayAssetMaterialInstance { id, primary_mode, images, colors, scalings })
    }
}
/// The images of a material instance.
#[derive(Debug, Clone, PartialEq, Eq, Hash)]
pub struct ShopFeaturedEntryDisplayAssetMaterialInstanceImages {
    pub offer_image: String,
    pub background: String,
}

impl FromJson for ShopFeaturedEntryDisplayAssetMaterialInstanceImages {
    open spec fn json_wf(j: JsonModel) -> bool {
        &&& j is Obj
        &&& req_wf::<String>(j->Obj_0, "OfferImage"@)
        &&& req_wf::<String>(j->Obj_0, "Background"@)
    }

    open spec fn json_models(&self, j: JsonModel) -> bool {
        &&& j is Obj
        &&& req_models(self.offer_image, j->Obj_0, "OfferImage"@)
        &&& req_models(self.background, j->Obj_0, "Background"@)
    }

    fn from_json(j: &Json) -> (r: Option<Self>) {
        let fields = match j {
            Json::Obj(f) => f,
            _ => {
                proof {
                    crate::codec::lemma_model_obj(*j);
                }
                return None;
            },
        };
        proof {
            crate::json::lemma_obj_model(*fields);
        }
        let offer_image = match req_field::<String>(fields, "OfferImage") {
            Some(v) => v,
            None => {
                return None;
            },
        };
        let background = match req_field::<String>(fields, "Background") {
            Some(v) => v,
            None => {
                return None;
            },
        };
        Some(ShopFeaturedEntryDisplayAssetMaterialInstanceImages { offer_image, background })
    }
}
/// The colors of a material instance.
#[derive(Debug, Clone, PartialEq, Eq, Hash)]
pub struct ShopFeaturedEntryDisplayAssetMaterialInstanceColors {
    pub fall_off_color: Option<String>,
    pub background_color_a: Option<String>,
    pub background_color_b: Option<String>,
}

impl FromJson for ShopFeaturedEntryDisplayAssetMaterialInstanceColors {
    open spec fn json_wf(j: JsonModel) -> bool {
        &&& j is Obj
        &&& opt_wf::<String>(j->Obj_0, "FallOff_Color"@)
        &&& opt_wf::<String>(j->Obj_0, "Background_Color_A"@)
        &&& opt_wf::<String>(j->Obj_0, "Background_Color_B"@)
    }

    open spec fn json_models(&self, j: JsonModel) -> bool {
        &&& j is Obj
        &&& opt_models(self.fall_off_color, j->Obj_0, "FallOff_Color"@)
        &&& opt_models(self.background_color_a, j->Obj_0, "Background_Color_A"@)
        &&& opt_models(self.background_color_b, j->Obj_0, "Background_Color_B"@)
    }

    fn from_json(j: &Json) -> (r: Option<Self>) {
        let fields = match j {
            Json::Obj(f) => f,
            _ => {
                proof {
                    crate::codec::lemma_model_obj(*j);
                }
                return None;
            },
        };
        proof {
            crate::json::lemma_obj_model(*fields);
        }
        let fall_off_color = match opt_field::<String>(fields, "FallOff_Color") {
            Some(v) => v,
            None => {
                return None;
            },
        };
        let background_color_a = match opt_field::<String>(fields, "Background_Color_A") {
            Some(v) => v,
            None => {
                return None;
            },
        };
        let background_color_b = match opt_field::<String>(fields, "Background_Color_B") {
            Some(v) => v,
            None => {
                return None;
            },
        };
        Some(ShopFeaturedEntryDisplayAssetMaterialInstanceColors { fall_off_color, background_color_a, background_color_b })
    }
}
} // verus!
