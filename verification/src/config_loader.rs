//! Connection and pipeline settings of the service, and the choice of the
//! directory its configuration files are read from.

use std::path::PathBuf;
use vstd::prelude::*;

verus! {

#[verifier::external_type_specification]
#[verifier::external_body]
pub struct ExPathBuf(PathBuf);

/// HTTP listener settings.
#[derive(Debug)]
pub struct ServerConfig {
    pub host: String,
    pub port: u16,
    pub static_dir: PathBuf,
}

/// MQTT broker settings.
#[derive(Debug, Clone)]
pub struct MqttConfig {
    pub broker: String,
    pub port: u16,
    pub client_id: String,
    pub topic: String,
    pub keep_alive_secs: u64,
    pub username: Option<String>,
    pub password: Option<String>,
}

/// Time-series store settings.
#[derive(Debug, Clone)]
pub struct ClickHouseConfig {
    pub url: String,
    pub database: String,
    pub user: String,
    pub password: String,
}

/// Capacities of the channels between the pipeline stages.
#[derive(Debug, Clone, Copy, PartialEq, Eq)]
pub struct PipelineConfig {
    pub mqtt_to_acoustic_buffer: usize,
    pub acoustic_to_locator_buffer: usize,
    pub locator_to_alarm_buffer: usize,
    pub sensor_raw_to_db_buffer: usize,
}

/// The fallback configuration directory.
pub open spec fn default_config_dir() -> Seq<char> {
    "./config"@
}

/// The directories searched for the configuration, in order: the one named
/// by the environment, if any, then the working directory's, its parent's,
/// and the system-wide one.
pub open spec fn candidate_dirs(env_dir: Option<Seq<char>>) -> Seq<Seq<char>> {
    let fixed = seq!["./config"@, "../config"@, "/etc/urn-acoustics"@];
    match env_dir {
        Some(d) => seq![d] + fixed,
        None => fixed,
    }
}

/// The directories searched for the configuration, in search order, given
/// the value of the directory variable of the environment (if set).
pub fn config_dir_candidates(env_dir: Option<String>) -> (v: Vec<String>)
    ensures
        v@.map_values(|s: String| s@) == candidate_dirs(
            match env_dir {
                Some(d) => Some(d@),
                None => None,
            },
        ),
{
    let mut v: Vec<String> = Vec::new();
    let ghost e: Option<Seq<char>> = match &env_dir {
        Some(d) => Some(d@),
        None => None,
    };
    match env_dir {
        Some(d) => v.push(d),
        None => {},
    }
    v.push(String::from_str("./config"));
    v.push(String::from_str("../config"));
    v.push(String::from_str("/etc/urn-acoustics"));
    assert(v@.map_values(|s: String| s@) =~= candidate_dirs(e));
    v
}

/// The first candidate marked present, or the fallback directory.
pub open spec fn chosen_dir(candidates: Seq<Seq<char>>, present: Seq<bool>) -> Seq<char>
    decreases candidates.len(),
{
    if candidates.len() == 0 || present.len() == 0 {
        default_config_dir()
    } else if present[0] {
        candidates[0]
    } else {
        chosen_dir(candidates.drop_first(), present.drop_first())
    }
}

/// Picks the configuration directory: the first candidate for which
/// `has_app_json` is set, or `./config` when there is none.
pub fn select_config_dir(candidates: &Vec<String>, has_app_json: &Vec<bool>) -> (dir: String)
    requires
        candidates.len() == has_app_json.len(),
    ensures
        dir@ == chosen_dir(candidates@.map_values(|s: String| s@), has_app_json@),
{
    let n = candidates.len();
    let mut i: usize = 0;
    assert(candidates@.map_values(|s: String| s@).skip(0) =~= candidates@.map_values(|s: String| s@));
    assert(has_app_json@.skip(0) =~= has_app_json@);
    while i < n
        invariant
            n == candidates.len(),
            n == has_app_json.len(),
            i <= n,
            chosen_dir(candidates@.map_values(|s: String| s@), has_app_json@)
                == chosen_dir(candidates@.map_values(|s: String| s@).skip(i as int), has_app_json@.skip(i as int)),
        decreases n - i,
    {
        let ghost names = candidates@.map_values(|s: String| s@);
        assert(names.skip(i as int).drop_first() =~= names.skip(i as int + 1));
        assert(has_app_json@.skip(i as int).drop_first() =~= has_app_json@.skip(i as int + 1));
        if has_app_json[i] {
            return candidates[i].clone();
        }
        i = i + 1;
    }
    String::from_str("./config")
}

/// The directory named by the environment is used whenever it holds the
/// configuration; without it, the first of the fixed places that holds the
/// configuration is used, and `./config` when none does.
pub proof fn lemma_environment_dir_preferred(env_dir: Seq<char>, present: Seq<bool>)
    requires
        present.len() == 4,
    ensures
        present[0] ==> chosen_dir(candidate_dirs(Some(env_dir)), present) == env_dir,
        !present[0] && present[1] ==> chosen_dir(candidate_dirs(Some(env_dir)), present) == "./config"@,
        !present[0] && !present[1] && present[2] ==> chosen_dir(candidate_dirs(Some(env_dir)), present) == "../config"@,
        !present[0] && !present[1] && !present[2] && present[3]
            ==> chosen_dir(candidate_dirs(Some(env_dir)), present) == "/etc/urn-acoustics"@,
        !present[0] && !present[1] && !present[2] && !present[3]
            ==> chosen_dir(candidate_dirs(Some(env_dir)), present) == default_config_dir(),
{
    let c0 = candidate_dirs(Some(env_dir));
    let c1 = c0.drop_first();
    let c2 = c1.drop_first();
    let c3 = c2.drop_first();
    let c4 = c3.drop_first();
    let p1 = present.drop_first();
    let p2 = p1.drop_first();
    let p3 = p2.drop_first();
    let p4 = p3.drop_first();
    assert(c0.len() == 4);
    assert(c1[0] == c0[1] && c2[0] == c0[2] && c3[0] == c0[3]);
    assert(p1[0] == present[1] && p2[0] == present[2] && p3[0] == present[3]);
    assert(c4.len() == 0);
    assert(chosen_dir(c4, p4) == default_config_dir());
    assert(chosen_dir(c3, p3) == if present[3] { c0[3] } else { default_config_dir() });
    assert(chosen_dir(c2, p2) == if present[2] { c0[2] } else { chosen_dir(c3, p3) });
    assert(chosen_dir(c1, p1) == if present[1] { c0[1] } else { chosen_dir(c2, p2) });
    assert(chosen_dir(c0, present) == if present[0] { c0[0] } else { chosen_dir(c1, p1) });
}

} // verus!
