//! Player statistics.

use vstd::prelude::*;
use crate::codec::{FromJson, req_wf, req_models, opt_wf, opt_models, req_field, opt_field};
use crate::json::{Json, JsonModel};
use crate::codec::JsonNumber;
use crate::time::Timestamp;

verus! {

/// Which platform an account name belongs to.
#[derive(Debug, Clone, Copy, PartialEq, Eq, Hash)]
pub enum StatsAccountType {
    Epic,
    Psn,
    Xbl,
}

impl StatsAccountType {
    /// The token this value is written as on the wire.
    pub open spec fn wire(&self) -> Seq<char> {
        match self {
            StatsAccountType::Epic => "epic"@,
            StatsAccountType::Psn => "psn"@,
            StatsAccountType::Xbl => "xbl"@,
        }
    }

    /// The token this value is written as on the wire.
    pub fn wire_str(&self) -> (r: &str)
        ensures
            r@ == self.wire(),
    {
        match self {
            StatsAccountType::Epic => "epic",
            StatsAccountType::Psn => "psn",
            StatsAccountType::Xbl => "xbl",
        }
    }
}
/// The span statistics are drawn from.
#[derive(Debug, Clone, Copy, PartialEq, Eq, Hash)]
pub enum StatsTimeWindow {
    Season,
    Lifetime,
}

impl StatsTimeWindow {
    /// The token this value is written as on the wire.
    pub open spec fn wire(&self) -> Seq<char> {
        match self {
            StatsTimeWindow::Season => "season"@,
            StatsTimeWindow::Lifetime => "lifetime"@,
        }
    }

    /// The token this value is written as on the wire.
    pub fn wire_str(&self) -> (r: &str)
        ensures
            r@ == self.wire(),
    {
        match self {
            StatsTimeWindow::Season => "season",
            StatsTimeWindow::Lifetime => "lifetime",
        }
    }
}
/// Which input's statistics the rendered image shows.
#[derive(Debug, Clone, Copy, PartialEq, Eq, Hash)]
pub enum StatsImage {
    All,
    KeyboardMouse,
    Gamepad,
    Touch,
    NoImage,
}

impl StatsImage {
    /// The token this value is written as on the wire.
    pub open spec fn wire(&self) -> Seq<char> {
        match self {
            StatsImage::All => "all"@,
            StatsImage::KeyboardMouse => "keyboardmouse"@,
            StatsImage::Gamepad => "gamepad"@,
            StatsImage::Touch => "touch"@,
            StatsImage::NoImage => "none"@,
        }
    }

    /// The token this value is written as on the wire.
    pub fn wire_str(&self) -> (r: &str)
        ensures
            r@ == self.wire(),
    {
        match self {
            StatsImage::All => "all",
            StatsImage::KeyboardMouse => "keyboardmouse",
            StatsImage::Gamepad => "gamepad",
            StatsImage::Touch => "touch",
            StatsImage::NoImage => "none",
        }
    }
}
/// A player's statistics.
#[derive(Debug, Clone, PartialEq, Eq, Hash)]
pub struct StatsV2 {
    pub account: StatsAccount,
    pub battle_pass: StatsBattlePass,
    pub image: Option<String>,
    pub stats: StatsStats,
}

impl FromJson for StatsV2 {
    open spec fn json_wf(j: JsonModel) -> bool {
        &&& j is Obj
        &&& req_wf::<StatsAccount>(j->Obj_0, "account"@)
        &&& req_wf::<StatsBattlePass>(j->Obj_0, "battlePass"@)
        &&& opt_wf::<String>(j->Obj_0, "image"@)
        &&& req_wf::<StatsStats>(j->Obj_0, "stats"@)
    }

    open spec fn json_models(&self, j: JsonModel) -> bool {
        &&& j is Obj
        &&& req_models(self.account, j->Obj_0, "account"@)
        &&& req_models(self.battle_pass, j->Obj_0, "battlePass"@)
        &&& opt_models(self.image, j->Obj_0, "image"@)
        &&& req_models(self.stats, j->Obj_0, "stats"@)
    }

    fn from_json(j: &Json) -> (r: Option<Self>) {
        let fields = match j {
            Json::Obj(f) => f,
            _ => {
                proof {
                    crate::codec::lemma_model_obj(*j);
                }
                return None;
            },
        };
        proof {
            crate::json::lemma_obj_model(*fields);
        }
        let account = match req_field::<StatsAccount>(fields, "account") {
            Some(v) => v,
            None => {
                return None;
            },
        };
        let battle_pass = match req_field::<StatsBattlePass>(fields, "battlePass") {
            Some(v) => v,
            None => {
                return None;
            },
        };
        let image = match opt_field::<String>(fields, "image") {
            Some(v) => v,
            None => {
                return None;
            },
        };
        let stats = match req_field::<StatsStats>(fields, "stats") {
            Some(v) => v,
            None => {
                return None;
            },
        };
        Some(StatsV2 { account, battle_pass, image, stats })
    }
}
/// The account the statistics belong to.
#[derive(Debug, Clone, PartialEq, Eq, Hash)]
pub struct StatsAccount {
    pub id: String,
    pub name: String,
}

impl FromJson for StatsAccount {
    open spec fn json_wf(j: JsonModel) -> bool {
        &&& j is Obj
        &&& req_wf::<String>(j->Obj_0, "id"@)
        &&& req_wf::<String>(j->Obj_0, "name"@)
    }

    open spec fn json_models(&self, j: JsonModel) -> bool {
        &&& j is Obj
        &&& req_models(self.id, j->Obj_0, "id"@)
        &&& req_models(self.name, j->Obj_0, "name"@)
    }

    fn from_json(j: &Json) -> (r: Option<Self>) {
        let fields = match j {
            Json::Obj(f) => f,
            _ => {
                proof {
                    crate::codec::lemma_model_obj(*j);
                }
                return None;
            },
        };
        proof {
            crate::json::lemma_obj_model(*fields);
        }
        let id = match req_field::<String>(fields, "id") {
            Some(v) => v,
            None => {
                return None;
            },
        };
        let name = match req_field::<String>(fields, "name") {
            Some(v) => v,
            None => {
                return None;
            },
        };
        Some(StatsAccount { id, name })
    }
}
/// The account's battle pass standing.
#[derive(Debug, Clone, PartialEq, Eq, Hash)]
pub struct StatsBattlePass {
    pub level: u32,
    pub progress: u32,
}

impl FromJson for StatsBattlePass {
    open spec fn json_wf(j: JsonModel) -> bool {
        &&& j is Obj
        &&& req_wf::<u32>(j->Obj_0, "level"@)
        &&& req_wf::<u32>(j->Obj_0, "progress"@)
    }

    open spec fn json_models(&self, j: JsonModel) -> bool {
        &&& j is Obj
        &&& req_models(self.level, j->Obj_0, "level"@)
        &&& req_models(self.progress, j->Obj_0, "progress"@)
    }

    fn from_json(j: &Json) -> (r: Option<Self>) {
        let fields = match j {
            Json::Obj(f) => f,
            _ => {
                proof {
                    crate::codec::lemma_model_obj(*j);
                }
                return None;
            },
        };
        proof {
            crate::json::lemma_obj_model(*fields);
        }
        let level = match req_field::<u32>(fields, "level") {
            Some(v) => v,
            None => {
                return None;
            },
        };
        let progress = match req_field::<u32>(fields, "progress") {
            Some(v) => v,
            None => {
                return None;
            },
        };
        Some(StatsBattlePass { level, progress })
    }
}
/// The statistics, split by input device.
#[derive(Debug, Clone, PartialEq, Eq, Hash)]
pub struct StatsStats {
    pub all: Option<StatsStatsInput>,
    pub keyboard_mouse: Option<StatsStatsInput>,
    pub gamepad: Option<StatsStatsInput>,
    pub touch: Option<StatsStatsInput>,
}

impl FromJson for StatsStats {
    open spec fn json_wf(j: JsonModel) -> bool {
        &&& j is Obj
        &&& opt_wf::<StatsStatsInput>(j->Obj_0, "all"@)
        &&& opt_wf::<StatsStatsInput>(j->Obj_0, "keyboardMouse"@)
        &&& opt_wf::<StatsStatsInput>(j->Obj_0, "gamepad"@)
        &&& opt_wf::<StatsStatsInput>(j->Obj_0, "touch"@)
    }

    open spec fn json_models(&self, j: JsonModel) -> bool {
        &&& j is Obj
        &&& opt_models(self.all, j->Obj_0, "all"@)
        &&& opt_models(self.keyboard_mouse, j->Obj_0, "keyboardMouse"@)
        &&& opt_models(self.gamepad, j->Obj_0, "gamepad"@)
        &&& opt_models(self.touch, j->Obj_0, "touch"@)
    }

    fn from_json(j: &Json) -> (r: Option<Self>) {
        let fields = match j {
            Json::Obj(f) => f,
            _ => {
                proof {
                    crate::codec::lemma_model_obj(*j);
                }
                return None;
            },
        };
        proof {
            crate::json::lemma_obj_model(*fields);
        }
        let all = match opt_field::<StatsStatsInput>(fields, "all") {
            Some(v) => v,
            None => {
                return None;
            },
        };
        let keyboard_mouse = match opt_field::<StatsStatsInput>(fields, "keyboardMouse") {
            Some(v) => v,
            None => {
                return None;
            },
        };
        let gamepad = match opt_field::<StatsStatsInput>(fields, "gamepad") {
            Some(v) => v,
            None => {
                return None;
            },
        };
        let touch = match opt_field::<StatsStatsInput>(fields, "touch") {
            Some(v) => v,
            None => {
                return None;
            },
        };
        Some(StatsStats { all, keyboard_mouse, gamepad, touch })
    }
}
/// One input device's statistics, split by team size.
#[derive(Debug, Clone, PartialEq, Eq, Hash)]
pub struct StatsStatsInput {
    pub overall: StatsStatsInputOverall,
    pub solo: Option<StatsStatsInputMode>,
    pub duo: Option<StatsStatsInputMode>,
    pub trio: Option<StatsStatsInputMode>,
    pub squad: Option<StatsStatsInputMode>,
    pub ltm: Option<StatsStatsInputMode>,
}

impl FromJson for StatsStatsInput {
    open spec fn json_wf(j: JsonModel) -> bool {
        &&& j is Obj
        &&& req_wf::<StatsStatsInputOverall>(j->Obj_0, "overall"@)
        &&& opt_wf::<StatsStatsInputMode>(j->Obj_0, "solo"@)
        &&& opt_wf::<StatsStatsInputMode>(j->Obj_0, "duo"@)
        &&& opt_wf::<StatsStatsInputMode>(j->Obj_0, "trio"@)
        &&& opt_wf::<StatsStatsInputMode>(j->Obj_0, "squad"@)
        &&& opt_wf::<StatsStatsInputMode>(j->Obj_0, "ltm"@)
    }

    open spec fn json_models(&self, j: JsonModel) -> bool {
        &&& j is Obj
        &&& req_models(self.overall, j->Obj_0, "overall"@)
        &&& opt_models(self.solo, j->Obj_0, "solo"@)
        &&& opt_models(self.duo, j->Obj_0, "duo"@)
        &&& opt_models(self.trio, j->Obj_0, "trio"@)
        &&& opt_models(self.squad, j->Obj_0, "squad"@)
        &&& opt_models(self.ltm, j->Obj_0, "ltm"@)
    }

    fn from_json(j: &Json) -> (r: Option<Self>) {
        let fields = match j {
            Json::Obj(f) => f,
            _ => {
                proof {
                    crate::codec::lemma_model_obj(*j);
                }
                return None;
            },
        };
        proof {
            crate::json::lemma_obj_model(*fields);
        }
        let overall = match req_field::<StatsStatsInputOverall>(fields, "overall") {
            Some(v) => v,
            None => {
                return None;
            },
        };
        let solo = match opt_field::<StatsStatsInputMode>(fields, "solo") {
            Some(v) => v,
            None => {
                return None;
            },
        };
        let duo = match opt_field::<StatsStatsInputMode>(fields, "duo") {
            Some(v) => v,
            None => {
                return None;
            },
        };
        let trio = match opt_field::<StatsStatsInputMode>(fields, "trio") {
            Some(v) => v,
            None => {
                return None;
            },
        };
        let squad = match opt_field::<StatsStatsInputMode>(fields, "squad") {
            Some(v) => v,
            None => {
                return None;
            },
        };
        let ltm = match opt_field::<StatsStatsInputMode>(fields, "ltm") {
            Some(v) => v,
            None => {
                return None;
            },
        };
        Some(StatsStatsInput { overall, solo, duo, trio, squad, ltm })
    }
}
/// Statistics over every team size. The wire key `matches` is held in `matches_played`.
#[derive(Debug, Clone, PartialEq, Eq, Hash)]
pub struct StatsStatsInputOverall {
    pub score: u64,
    pub score_per_min: JsonNumber,
    pub score_per_match: JsonNumber,
    pub wins: u32,
    pub top_3: u32,
    pub top_5: u32,
    pub top_6: u32,
    pub top_10: u32,
    pub top_12: u32,
    pub top_25: u32,
    pub kills: u32,
    pub kills_per_min: JsonNumber,
    pub kills_per_match: JsonNumber,
    pub deaths: u32,
    pub kd: JsonNumber,
    pub matches_played: u32,
    pub win_rate: JsonNumber,
    pub minutes_played: u64,
    pub players_outlived: u32,
    pub last_modified: Timestamp,
}

impl FromJson for StatsStatsInputOverall {
    open spec fn json_wf(j: JsonModel) -> bool {
        &&& j is Obj
        &&& req_wf::<u64>(j->Obj_0, "score"@)
        &&& req_wf::<JsonNumber>(j->Obj_0, "scorePerMin"@)
        &&& req_wf::<JsonNumber>(j->Obj_0, "scorePerMatch"@)
        &&& req_wf::<u32>(j->Obj_0, "wins"@)
        &&& req_wf::<u32>(j->Obj_0, "top3"@)
        &&& req_wf::<u32>(j->Obj_0, "top5"@)
        &&& req_wf::<u32>(j->Obj_0, "top6"@)
        &&& req_wf::<u32>(j->Obj_0, "top10"@)
        &&& req_wf::<u32>(j->Obj_0, "top12"@)
        &&& req_wf::<u32>(j->Obj_0, "top25"@)
        &&& req_wf::<u32>(j->Obj_0, "kills"@)
        &&& req_wf::<JsonNumber>(j->Obj_0, "killsPerMin"@)
        &&& req_wf::<JsonNumber>(j->Obj_0, "killsPerMatch"@)
        &&& req_wf::<u32>(j->Obj_0, "deaths"@)
        &&& req_wf::<JsonNumber>(j->Obj_0, "kd"@)
        &&& req_wf::<u32>(j->Obj_0, "matches"@)
        &&& req_wf::<JsonNumber>(j->Obj_0, "winRate"@)
        &&& req_wf::<u64>(j->Obj_0, "minutesPlayed"@)
        &&& req_wf::<u32>(j->Obj_0, "playersOutlived"@)
        &&& req_wf::<Timestamp>(j->Obj_0, "lastModified"@)
    }

    open spec fn json_models(&self, j: JsonModel) -> bool {
        &&& j is Obj
        &&& req_models(self.score, j->Obj_0, "score"@)
        &&& req_models(self.score_per_min, j->Obj_0, "scorePerMin"@)
        &&& req_models(self.score_per_match, j->Obj_0, "scorePerMatch"@)
        &&& req_models(self.wins, j->Obj_0, "wins"@)
        &&& req_models(self.top_3, j->Obj_0, "top3"@)
        &&& req_models(self.top_5, j->Obj_0, "top5"@)
        &&& req_models(self.top_6, j->Obj_0, "top6"@)
        &&& req_models(self.top_10, j->Obj_0, "top10"@)
        &&& req_models(self.top_12, j->Obj_0, "top12"@)
        &&& req_models(self.top_25, j->Obj_0, "top25"@)
        &&& req_models(self.kills, j->Obj_0, "kills"@)
        &&& req_models(self.kills_per_min, j->Obj_0, "killsPerMin"@)
        &&& req_models(self.kills_per_match, j->Obj_0, "killsPerMatch"@)
        &&& req_models(self.deaths, j->Obj_0, "deaths"@)
        &&& req_models(self.kd, j->Obj_0, "kd"@)
        &&& req_models(self.matches_played, j->Obj_0, "matches"@)
        &&& req_models(self.win_rate, j->Obj_0, "winRate"@)
        &&& req_models(self.minutes_played, j->Obj_0, "minutesPlayed"@)
        &&& req_models(self.players_outlived, j->Obj_0, "playersOutlived"@)
        &&& req_models(self.last_modified, j->Obj_0, "lastModified"@)
    }

    #[verifier::rlimit(80)]
    fn from_json(j: &Json) -> (r: Option<Self>) {
        let fields = match j {
            Json::Obj(f) => f,
            _ => {
                proof {
                    crate::codec::lemma_model_obj(*j);
                }
                return None;
            },
        };
        proof {
            crate::json::lemma_obj_model(*fields);
        }
        let score = match req_field::<u64>(fields, "score") {
            Some(v) => v,
            None => {
                return None;
            },
        };
        let score_per_min = match req_field::<JsonNumber>(fields, "scorePerMin") {
            Some(v) => v,
            None => {
                return None;
            },
        };
        let score_per_match = match req_field::<JsonNumber>(fields, "scorePerMatch") {
            Some(v) => v,
            None => {
                return None;
            },
        };
        let wins = match req_field::<u32>(fields, "wins") {
            Some(v) => v,
            None => {
                return None;
            },
        };
        let top_3 = match req_field::<u32>(fields, "top3") {
            Some(v) => v,
            None => {
                return None;
            },
        };
        let top_5 = match req_field::<u32>(fields, "top5") {
            Some(v) => v,
            None => {
                return None;
            },
        };
        let top_6 = match req_field::<u32>(fields, "top6") {
            Some(v) => v,
            None => {
                return None;
            },
        };
        let top_10 = match req_field::<u32>(fields, "top10") {
            Some(v) => v,
            None => {
                return None;
            },
        };
        let top_12 = match req_field::<u32>(fields, "top12") {
            Some(v) => v,
            None => {
                return None;
            },
        };
        let top_25 = match req_field::<u32>(fields, "top25") {
            Some(v) => v,
            None => {
                return None;
            },
        };
        let kills = match req_field::<u32>(fields, "kills") {
            Some(v) => v,
            None => {
                return None;
            },
        };
        let kills_per_min = match req_field::<JsonNumber>(fields, "killsPerMin") {
            Some(v) => v,
            None => {
                return None;
            },
        };
        let kills_per_match = match req_field::<JsonNumber>(fields, "killsPerMatch") {
            Some(v) => v,
            None => {
                return None;
            },
        };
        let deaths = match req_field::<u32>(fields, "deaths") {
            Some(v) => v,
            None => {
                return None;
            },
        };
        let kd = match req_field::<JsonNumber>(fields, "kd") {
            Some(v) => v,
            None => {
                return None;
            },
        };
        let matches_played = match req_field::<u32>(fields, "matches") {
            Some(v) => v,
            None => {
                return None;
            },
        };
        let win_rate = match req_field::<JsonNumber>(fields, "winRate") {
            Some(v) => v,
            None => {
                return None;
            },
        };
        let minutes_played = match req_field::<u64>(fields, "minutesPlayed") {
            Some(v) => v,
            None => {
                return None;
            },
        };
        let players_outlived = match req_field::<u32>(fields, "playersOutlived") {
            Some(v) => v,
            None => {
                return None;
            },
        };
        let last_modified = match req_field::<Timestamp>(fields, "lastModified") {
            Some(v) => v,
            None => {
                return None;
            },
        };
        Some(StatsStatsInputOverall { score, score_per_min, score_per_match, wins, top_3, top_5, top_6, top_10, top_12, top_25, kills, kills_per_min, kills_per_match, deaths, kd, matches_played, win_rate, minutes_played, players_outlived, last_modified })
    }
}
/// Statistics for one team size. The wire key `matches` is held in `matches_played`.
#[derive(Debug, Clone, PartialEq, Eq, Hash)]
pub struct StatsStatsInputMode {
    pub score: u64,
    pub score_per_min: JsonNumber,
    pub score_per_match: JsonNumber,
    pub wins: u32,
    pub top_3: Option<u32>,
    pub top_5: Option<u32>,
    pub top_6: Option<u32>,
    pub top_10: Option<u32>,
    pub top_12: Option<u32>,
    pub top_25: Option<u32>,
    pub kills: u32,
    pub kills_per_min: JsonNumber,
    pub kills_per_match: JsonNumber,
    pub deaths: u32,
    pub kd: JsonNumber,
    pub matches_played: u32,
    pub win_rate: JsonNumber,
    pub minutes_played: u64,
    pub players_outlived: u32,
    pub last_modified: Timestamp,
}

impl FromJson for StatsStatsInputMode {
    open spec fn json_wf(j: JsonModel) -> bool {
        &&& j is Obj
        &&& req_wf::<u64>(j->Obj_0, "score"@)
        &&& req_wf::<JsonNumber>(j->Obj_0, "scorePerMin"@)
        &&& req_wf::<JsonNumber>(j->Obj_0, "scorePerMatch"@)
        &&& req_wf::<u32>(j->Obj_0, "wins"@)
        &&& opt_wf::<u32>(j->Obj_0, "top3"@)
        &&& opt_wf::<u32>(j->Obj_0, "top5"@)
        &&& opt_wf::<u32>(j->Obj_0, "top6"@)
        &&& opt_wf::<u32>(j->Obj_0, "top10"@)
        &&& opt_wf::<u32>(j->Obj_0, "top12"@)
        &&& opt_wf::<u32>(j->Obj_0, "top25"@)
        &&& req_wf::<u32>(j->Obj_0, "kills"@)
        &&& req_wf::<JsonNumber>(j->Obj_0, "killsPerMin"@)
        &&& req_wf::<JsonNumber>(j->Obj_0, "killsPerMatch"@)
        &&& req_wf::<u32>(j->Obj_0, "deaths"@)
        &&& req_wf::<JsonNumber>(j->Obj_0, "kd"@)
        &&& req_wf::<u32>(j->Obj_0, "matches"@)
        &&& req_wf::<JsonNumber>(j->Obj_0, "winRate"@)
        &&& req_wf::<u64>(j->Obj_0, "minutesPlayed"@)
        &&& req_wf::<u32>(j->Obj_0, "playersOutlived"@)
        &&& req_wf::<Timestamp>(j->Obj_0, "lastModified"@)
    }

    open spec fn json_models(&self, j: JsonModel) -> bool {
        &&& j is Obj
        &&& req_models(self.score, j->Obj_0, "score"@)
        &&& req_models(self.score_per_min, j->Obj_0, "scorePerMin"@)
        &&& req_models(self.score_per_match, j->Obj_0, "scorePerMatch"@)
        &&& req_models(self.wins, j->Obj_0, "wins"@)
        &&& opt_models(self.top_3, j->Obj_0, "top3"@)
        &&& opt_models(self.top_5, j->Obj_0, "top5"@)
        &&& opt_models(self.top_6, j->Obj_0, "top6"@)
        &&& opt_models(self.top_10, j->Obj_0, "top10"@)
        &&& opt_models(self.top_12, j->Obj_0, "top12"@)
        &&& opt_models(self.top_25, j->Obj_0, "top25"@)
        &&& req_models(self.kills, j->Obj_0, "kills"@)
        &&& req_models(self.kills_per_min, j->Obj_0, "killsPerMin"@)
        &&& req_models(self.kills_per_match, j->Obj_0, "killsPerMatch"@)
        &&& req_models(self.deaths, j->Obj_0, "deaths"@)
        &&& req_models(self.kd, j->Obj_0, "kd"@)
        &&& req_models(self.matches_played, j->Obj_0, "matches"@)
        &&& req_models(self.win_rate, j->Obj_0, "winRate"@)
        &&& req_models(self.minutes_played, j->Obj_0, "minutesPlayed"@)
        &&& req_models(self.players_outlived, j->Obj_0, "playersOutlived"@)
        &&& req_models(self.last_modified, j->Obj_0, "lastModified"@)
    }

    #[verifier::rlimit(80)]
    fn from_json(j: &Json) -> (r: Option<Self>) {
        let fields = match j {
            Json::Obj(f) => f,
            _ => {
                proof {
                    crate::codec::lemma_model_obj(*j);
                }
                return None;
            },
        };
        proof {
            crate::json::lemma_obj_model(*fields);
        }
        let score = match req_field::<u64>(fields, "score") {
            Some(v) => v,
            None => {
                return None;
            },
        };
        let score_per_min = match req_field::<JsonNumber>(fields, "scorePerMin") {
            Some(v) => v,
            None => {
                return None;
            },
        };
        let score_per_match = match req_field::<JsonNumber>(fields, "scorePerMatch") {
            Some(v) => v,
            None => {
                return None;
            },
        };
        let wins = match req_field::<u32>(fields, "wins") {
            Some(v) => v,
            None => {
                return None;
            },
        };
        let top_3 = match opt_field::<u32>(fields, "top3") {
            Some(v) => v,
            None => {
                return None;
            },
        };
        let top_5 = match opt_field::<u32>(fields, "top5") {
            Some(v) => v,
            None => {
                return None;
            },
        };
        let top_6 = match opt_field::<u32>(fields, "top6") {
            Some(v) => v,
            None => {
                return None;
            },
        };
        let top_10 = match opt_field::<u32>(fields, "top10") {
            Some(v) => v,
            None => {
                return None;
            },
        };
        let top_12 = match opt_field::<u32>(fields, "top12") {
            Some(v) => v,
            None => {
                return None;
            },
        };
        let top_25 = match opt_field::<u32>(fields, "top25") {
            Some(v) => v,
            None => {
                return None;
            },
        };
        let kills = match req_field::<u32>(fields, "kills") {
            Some(v) => v,
            None => {
                return None;
            },
        };
        let kills_per_min = match req_field::<JsonNumber>(fields, "killsPerMin") {
            Some(v) => v,
            None => {
                return None;
            },
        };
        let kills_per_match = match req_field::<JsonNumber>(fields, "killsPerMatch") {
            Some(v) => v,
            None => {
                return None;
            },
        };
        let deaths = match req_field::<u32>(fields, "deaths") {
            Some(v) => v,
            None => {
                return None;
            },
        };
        let kd = match req_field::<JsonNumber>(fields, "kd") {
            Some(v) => v,
            None => {
                return None;
            },
        };
        let matches_played = match req_field::<u32>(fields, "matches") {
            Some(v) => v,
            None => {
                return None;
            },
        };
        let win_rate = match req_field::<JsonNumber>(fields, "winRate") {
            Some(v) => v,
            None => {
                return None;
            },
        };
        let minutes_played = match req_field::<u64>(fields, "minutesPlayed") {
            Some(v) => v,
            None => {
                return None;
            },
        };
        let players_outlived = match req_field::<u32>(fields, "playersOutlived") {
            Some(v) => v,
            None => {
                return None;
            },
        };
        let last_modified = match req_field::<Timestamp>(fields, "lastModified") {
            Some(v) => v,
            None => {
                return None;
            },
        };
        Some(StatsStatsInputMode { score, score_per_min, score_per_match, wins, top_3, top_5, top_6, top_10, top_12, top_25, kills, kills_per_min, kills_per_match, deaths, kd, matches_played, win_rate, minutes_played, players_outlived, last_modified })
    }
}
} // verus!
