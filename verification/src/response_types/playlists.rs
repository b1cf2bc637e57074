//! The playlist catalog.

use vstd::prelude::*;
use crate::codec::{FromJson, req_wf, req_models, opt_wf, opt_models, req_field, opt_field};
use crate::json::{Json, JsonModel};
use crate::time::Timestamp;

verus! {

pub type PlaylistsV1 = Vec<PlaylistV1>;

/// One playlist and its team shape.
#[derive(Debug, Clone, PartialEq, Eq, Hash)]
pub struct PlaylistV1 {
    pub id: String,
    pub name: String,
    pub sub_name: Option<String>,
    pub description: Option<String>,
    pub game_type: Option<PlaylistGameType>,
    pub rating_type: Option<PlaylistRatingType>,
    pub min_players: i64,
    pub max_players: i64,
    pub max_teams: i64,
    pub max_team_size: i64,
    pub max_squads: i64,
    pub max_squad_size: i64,
    pub is_default: bool,
    pub is_tournament: bool,
    pub is_limited_time_mode: bool,
    pub is_large_team_game: bool,
    pub accumulate_to_profile_stats: bool,
    pub images: PlaylistImages,
    pub gameplay_tags: Vec<String>,
    pub path: String,
    pub added: Timestamp,
}

impl FromJson for PlaylistV1 {
    open spec fn json_wf(j: JsonModel) -> bool {
        &&& j is Obj
        &&& req_wf::<String>(j->Obj_0, "id"@)
        &&& req_wf::<String>(j->Obj_0, "name"@)
        &&& opt_wf::<String>(j->Obj_0, "subName"@)
        &&& opt_wf::<String>(j->Obj_0, "description"@)
        &&& opt_wf::<PlaylistGameType>(j->Obj_0, "gameType"@)
        &&& opt_wf::<PlaylistRatingType>(j->Obj_0, "ratingType"@)
        &&& req_wf::<i64>(j->Obj_0, "minPlayers"@)
        &&& req_wf::<i64>(j->Obj_0, "maxPlayers"@)
        &&& req_wf::<i64>(j->Obj_0, "maxTeams"@)
        &&& req_wf::<i64>(j->Obj_0, "maxTeamSize"@)
        &&& req_wf::<i64>(j->Obj_0, "maxSquads"@)
        &&& req_wf::<i64>(j->Obj_0, "maxSquadSize"@)
        &&& req_wf::<bool>(j->Obj_0, "isDefault"@)
        &&& req_wf::<bool>(j->Obj_0, "isTournament"@)
        &&& req_wf::<bool>(j->Obj_0, "isLimitedTimeMode"@)
        &&& req_wf::<bool>(j->Obj_0, "isLargeTeamGame"@)
        &&& req_wf::<bool>(j->Obj_0, "accumulateToProfileStats"@)
        &&& req_wf::<PlaylistImages>(j->Obj_0, "images"@)
        &&& req_wf::<Vec<String>>(j->Obj_0, "gameplayTags"@)
        &&& req_wf::<String>(j->Obj_0, "path"@)
        &&& req_wf::<Timestamp>(j->Obj_0, "added"@)
    }

    open spec fn json_models(&self, j: JsonModel) -> bool {
        &&& j is Obj
        &&& req_models(self.id, j->Obj_0, "id"@)
        &&& req_models(self.name, j->Obj_0, "name"@)
        &&& opt_models(self.sub_name, j->Obj_0, "subName"@)
        &&& opt_models(self.description, j->Obj_0, "description"@)
        &&& opt_models(self.game_type, j->Obj_0, "gameType"@)
        &&& opt_models(self.rating_type, j->Obj_0, "ratingType"@)
        &&& req_models(self.min_players, j->Obj_0, "minPlayers"@)
        &&& req_models(self.max_players, j->Obj_0, "maxPlayers"@)
        &&& req_models(self.max_teams, j->Obj_0, "maxTeams"@)
        &&& req_models(self.max_team_size, j->Obj_0, "maxTeamSize"@)
        &&& req_models(self.max_squads, j->Obj_0, "maxSquads"@)
        &&& req_models(self.max_squad_size, j->Obj_0, "maxSquadSize"@)
        &&& req_models(self.is_default, j->Obj_0, "isDefault"@)
        &&& req_models(self.is_tournament, j->Obj_0, "isTournament"@)
        &&& req_models(self.is_limited_time_mode, j->Obj_0, "isLimitedTimeMode"@)
        &&& req_models(self.is_large_team_game, j->Obj_0, "isLargeTeamGame"@)
        &&& req_models(self.accumulate_to_profile_stats, j->Obj_0, "accumulateToProfileStats"@)
        &&& req_models(self.images, j->Obj_0, "images"@)
        &&& req_models(self.gameplay_tags, j->Obj_0, "gameplayTags"@)
        &&& req_models(self.path, j->Obj_0, "path"@)
        &&& req_models(self.added, j->Obj_0, "added"@)
    }

    #[verifier::rlimit(80)]
    fn from_json(j: &Json) -> (r: Option<Self>) {
        let fields = match j {
            Json::Obj(f) => f,
            _ => {
                proof {
                    crate::codec::lemma_model_obj(*j);
                }
                return None;
            },
        };
        proof {
            crate::json::lemma_obj_model(*fields);
        }
        let id = match req_field::<String>(fields, "id") {
            Some(v) => v,
            None => {
                return None;
            },
        };
        let name = match req_field::<String>(fields, "name") {
            Some(v) => v,
            None => {
                return None;
            },
        };
        let sub_name = match opt_field::<String>(fields, "subName") {
            Some(v) => v,
            None => {
                return None;
            },
        };
        let description = match opt_field::<String>(fields, "description") {
            Some(v) => v,
            None => {
                return None;
            },
        };
        let game_type = match opt_field::<PlaylistGameType>(fields, "gameType") {
            Some(v) => v,
            None => {
                return None;
            },
        };
        let rating_type = match opt_field::<PlaylistRatingType>(fields, "ratingType") {
            Some(v) => v,
            None => {
                return None;
            },
        };
        let min_players = match req_field::<i64>(fields, "minPlayers") {
            Some(v) => v,
            None => {
                return None;
            },
        };
        let max_players = match req_field::<i64>(fields, "maxPlayers") {
            Some(v) => v,
            None => {
                return None;
            },
        };
        let max_teams = match req_field::<i64>(fields, "maxTeams") {
            Some(v) => v,
            None => {
                return None;
            },
        };
        let max_team_size = match req_field::<i64>(fields, "maxTeamSize") {
            Some(v) => v,
            None => {
                return None;
            },
        };
        let max_squads = match req_field::<i64>(fields, "maxSquads") {
            Some(v) => v,
            None => {
                return None;
            },
        };
        let max_squad_size = match req_field::<i64>(fields, "maxSquadSize") {
            Some(v) => v,
            None => {
                return None;
            },
        };
        let is_default = match req_field::<bool>(fields, "isDefault") {
            Some(v) => v,
            None => {
                return None;
            },
        };
        let is_tournament = match req_field::<bool>(fields, "isTournament") {
            Some(v) => v,
            None => {
                return None;
            },
        };
        let is_limited_time_mode = match req_field::<bool>(fields, "isLimitedTimeMode") {
            Some(v) => v,
            None => {
                return None;
            },
        };
        let is_large_team_game = match req_field::<bool>(fields, "isLargeTeamGame") {
            Some(v) => v,
            None => {
                return None;
            },
        };
        let accumulate_to_profile_stats = match req_field::<bool>(fields, "accumulateToProfileStats") {
            Some(v) => v,
            None => {
                return None;
            },
        };
        let images = match req_field::<PlaylistImages>(fields, "images") {
            Some(v) => v,
            None => {
                return None;
            },
        };
        let gameplay_tags = match req_field::<Vec<String>>(fields, "gameplayTags") {
            Some(v) => v,
            None => {
                return None;
            },
        };
        let path = match req_field::<String>(fields, "path") {
            Some(v) => v,
            None => {
                return None;
            },
        };
        let added = match req_field::<Timestamp>(fields, "added") {
            Some(v) => v,
            None => {
                return None;
            },
        };
        Some(PlaylistV1 { id, name, sub_name, description, game_type, rating_type, min_players, max_players, max_teams, max_team_size, max_squads, max_squad_size, is_default, is_tournament, is_limited_time_mode, is_large_team_game, accumulate_to_profile_stats, images, gameplay_tags, path, added })
    }
}
/// Where a playlist's images live.
#[derive(Debug, Clone, PartialEq, Eq, Hash)]
pub struct PlaylistImages {
    pub showcase: Option<String>,
    pub mission_icon: Option<String>,
}

impl FromJson for PlaylistImages {
    open spec fn json_wf(j: JsonModel) -> bool {
        &&& j is Obj
        &&& opt_wf::<String>(j->Obj_0, "showcase"@)
        &&& opt_wf::<String>(j->Obj_0, "missionIcon"@)
    }

    open spec fn json_models(&self, j: JsonModel) -> bool {
        &&& j is Obj
        &&& opt_models(self.showcase, j->Obj_0, "showcase"@)
        &&& opt_models(self.mission_icon, j->Obj_0, "missionIcon"@)
    }

    fn from_json(j: &Json) -> (r: Option<Self>) {
        let fields = match j {
            Json::Obj(f) => f,
            _ => {
                proof {
                    crate::codec::lemma_model_obj(*j);
                }
                return None;
            },
        };
        proof {
            crate::json::lemma_obj_model(*fields);
        }
        let showcase = match opt_field::<String>(fields, "showcase") {
            Some(v) => v,
            None => {
                return None;
            },
        };
        let mission_icon = match opt_field::<String>(fields, "missionIcon") {
            Some(v) => v,
            None => {
                return None;
            },
        };
        Some(PlaylistImages { showcase, mission_icon })
    }
}
/// How a playlist is rated.
#[derive(Debug, Clone, Copy, PartialEq, Eq, Hash)]
pub enum PlaylistRatingType {
    DelmarChallenge,
    DelmarCompetitive,
    Fun,
    LargeTeam,
    NoBuild,
    RankedBR,
    RankedZB,
    Respawn,
    Solo,
    Team,
}

impl PlaylistRatingType {
    /// The token this value is written as on the wire.
    pub open spec fn wire(&self) -> Seq<char> {
        match self {
            PlaylistRatingType::DelmarChallenge => "delmar-challenge"@,
            PlaylistRatingType::DelmarCompetitive => "delmar-competitive"@,
            PlaylistRatingType::Fun => "fun"@,
            PlaylistRatingType::LargeTeam => "largeTeam"@,
            PlaylistRatingType::NoBuild => "nobuild"@,
            PlaylistRatingType::RankedBR => "ranked-br"@,
            PlaylistRatingType::RankedZB => "ranked-zb"@,
            PlaylistRatingType::Respawn => "respawn"@,
            PlaylistRatingType::Solo => "solo"@,
            PlaylistRatingType::Team => "team"@,
        }
    }

    /// The token this value is written as on the wire.
    pub fn wire_str(&self) -> (r: &str)
        ensures
            r@ == self.wire(),
    {
        match self {
            PlaylistRatingType::DelmarChallenge => "delmar-challenge",
            PlaylistRatingType::DelmarCompetitive => "delmar-competitive",
            PlaylistRatingType::Fun => "fun",
            PlaylistRatingType::LargeTeam => "largeTeam",
            PlaylistRatingType::NoBuild => "nobuild",
            PlaylistRatingType::RankedBR => "ranked-br",
            PlaylistRatingType::RankedZB => "ranked-zb",
            PlaylistRatingType::Respawn => "respawn",
            PlaylistRatingType::Solo => "solo",
            PlaylistRatingType::Team => "team",
        }
    }
}

impl FromJson for PlaylistRatingType {
    open spec fn json_wf(j: JsonModel) -> bool {
        j matches JsonModel::Str(s) && (s == "delmar-challenge"@ || s == "delmar-competitive"@ || s == "fun"@ || s == "largeTeam"@ || s == "nobuild"@ || s == "ranked-br"@ || s == "ranked-zb"@ || s == "respawn"@ || s == "solo"@ || s == "team"@)
    }

    open spec fn json_models(&self, j: JsonModel) -> bool {
        j == JsonModel::Str(self.wire())
    }

    fn from_json(j: &Json) -> (r: Option<Self>) {
        match j {
            Json::Str(s) => {
                if crate::text::str_eq(s.as_str(), "delmar-challenge") {
                    Some(PlaylistRatingType::DelmarChallenge)
                } else if crate::text::str_eq(s.as_str(), "delmar-competitive") {
                    Some(PlaylistRatingType::DelmarCompetitive)
                } else if crate::text::str_eq(s.as_str(), "fun") {
                    Some(PlaylistRatingType::Fun)
                } else if crate::text::str_eq(s.as_str(), "largeTeam") {
                    Some(PlaylistRatingType::LargeTeam)
                } else if crate::text::str_eq(s.as_str(), "nobuild") {
                    Some(PlaylistRatingType::NoBuild)
                } else if crate::text::str_eq(s.as_str(), "ranked-br") {
                    Some(PlaylistRatingType::RankedBR)
                } else if crate::text::str_eq(s.as_str(), "ranked-zb") {
                    Some(PlaylistRatingType::RankedZB)
                } else if crate::text::str_eq(s.as_str(), "respawn") {
                    Some(PlaylistRatingType::Respawn)
                } else if crate::text::str_eq(s.as_str(), "solo") {
                    Some(PlaylistRatingType::Solo)
                } else if crate::text::str_eq(s.as_str(), "team") {
                    Some(PlaylistRatingType::Team)
                } else {
                    None
                }
            },
            _ => None,
        }
    }
}
/// The engine's game type of a playlist.
#[derive(Debug, Clone, Copy, PartialEq, Eq, Hash)]
pub enum PlaylistGameType {
    BR,
    BRArena,
    BRLtm,
    Creative,
    CreativeLTM,
    DelMar,
    Festival,
    Playground,
    Social,
    VKEdit,
    VKPlay,
    ZeroBuild,
}

impl PlaylistGameType {
    /// The token this value is written as on the wire.
    pub open spec fn wire(&self) -> Seq<char> {
        match self {
            PlaylistGameType::BR => "EFortGameType::BR"@,
            PlaylistGameType::BRArena => "EFortGameType::BRArena"@,
            PlaylistGameType::BRLtm => "EFortGameType::BRLTM"@,
            PlaylistGameType::Creative => "EFortGameType::Creative"@,
            PlaylistGameType::CreativeLTM => "EFortGameType::CreativeLTM"@,
            PlaylistGameType::DelMar => "EFortGameType::DelMar"@,
            PlaylistGameType::Festival => "EFortGameType::Festival"@,
            PlaylistGameType::Playground => "EFortGameType::Playground"@,
            PlaylistGameType::Social => "EFortGameType::Social"@,
            PlaylistGameType::VKEdit => "EFortGameType::VKEdit"@,
            PlaylistGameType::VKPlay => "EFortGameType::VKPlay"@,
            PlaylistGameType::ZeroBuild => "EFortGameType::ZeroBuild"@,
        }
    }

    /// The token this value is written as on the wire.
    pub fn wire_str(&self) -> (r: &str)
        ensures
            r@ == self.wire(),
    {
        match self {
            PlaylistGameType::BR => "EFortGameType::BR",
            PlaylistGameType::BRArena => "EFortGameType::BRArena",
            PlaylistGameType::BRLtm => "EFortGameType::BRLTM",
            PlaylistGameType::Creative => "EFortGameType::Creative",
            PlaylistGameType::CreativeLTM => "EFortGameType::CreativeLTM",
            PlaylistGameType::DelMar => "EFortGameType::DelMar",
            PlaylistGameType::Festival => "EFortGameType::Festival",
            PlaylistGameType::Playground => "EFortGameType::Playground",
            PlaylistGameType::Social => "EFortGameType::Social",
            PlaylistGameType::VKEdit => "EFortGameType::VKEdit",
            PlaylistGameType::VKPlay => "EFortGameType::VKPlay",
            PlaylistGameType::ZeroBuild => "EFortGameType::ZeroBuild",
        }
    }
}

impl FromJson for PlaylistGameType {
    open spec fn json_wf(j: JsonModel) -> bool {
        j matches JsonModel::Str(s) && (s == "EFortGameType::BR"@ || s == "EFortGameType::BRArena"@ || s == "EFortGameType::BRLTM"@ || s == "EFortGameType::Creative"@ || s == "EFortGameType::CreativeLTM"@ || s == "EFortGameType::DelMar"@ || s == "EFortGameType::Festival"@ || s == "EFortGameType::Playground"@ || s == "EFortGameType::Social"@ || s == "EFortGameType::VKEdit"@ || s == "EFortGameType::VKPlay"@ || s == "EFortGameType::ZeroBuild"@)
    }

    open spec fn json_models(&self, j: JsonModel) -> bool {
        j == JsonModel::Str(self.wire())
    }

    fn from_json(j: &Json) -> (r: Option<Self>) {
        match j {
            Json::Str(s) => {
                if crate::text::str_eq(s.as_str(), "EFortGameType::BR") {
                    Some(PlaylistGameType::BR)
                } else if crate::text::str_eq(s.as_str(), "EFortGameType::BRArena") {
                    Some(PlaylistGameType::BRArena)
                } else if crate::text::str_eq(s.as_str(), "EFortGameType::BRLTM") {
                    Some(PlaylistGameType::BRLtm)
                } else if crate::text::str_eq(s.as_str(), "EFortGameType::Creative") {
                    Some(PlaylistGameType::Creative)
                } else if crate::text::str_eq(s.as_str(), "EFortGameType::CreativeLTM") {
                    Some(PlaylistGameType::CreativeLTM)
                } else if crate::text::str_eq(s.as_str(), "EFortGameType::DelMar") {
                    Some(PlaylistGameType::DelMar)
                } else if crate::text::str_eq(s.as_str(), "EFortGameType::Festival") {
                    Some(PlaylistGameType::Festival)
                } else if crate::text::str_eq(s.as_str(), "EFortGameType::Playground") {
                    Some(PlaylistGameType::Playground)
                } else if crate::text::str_eq(s.as_str(), "EFortGameType::Social") {
                    Some(PlaylistGameType::Social)
                } else if crate::text::str_eq(s.as_str(), "EFortGameType::VKEdit") {
                    Some(PlaylistGameType::VKEdit)
                } else if crate::text::str_eq(s.as_str(), "EFortGameType::VKPlay") {
                    Some(PlaylistGameType::VKPlay)
                } else if crate::text::str_eq(s.as_str(), "EFortGameType::ZeroBuild") {
                    Some(PlaylistGameType::ZeroBuild)
                } else {
                    None
                }
            },
            _ => None,
        }
    }
}
} // verus!
