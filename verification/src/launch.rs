use vstd::prelude::*;
use vstd::string::StringExecFns;

use crate::text::{dec_of, decimal_u16, join_spec, path_join};

verus! {

/// The primary service: the heavier one, launched first, the one the
/// secondary depends on.
pub const PRIMARY_PORT: u16 = 4310;

/// The secondary service: launched after the primary's attempt concluded.
pub const SECONDARY_PORT: u16 = 4320;

/// Startup deadline of the primary service, in milliseconds.
pub const PRIMARY_DEADLINE_MS: u64 = 10000;

/// Startup deadline of the secondary service, in milliseconds: the heavier
/// startup gets the longer wait.
pub const SECONDARY_DEADLINE_MS: u64 = 25000;

/// One environment variable handed to a child process.
pub struct EnvPair {
    pub key: String,
    pub value: String,
}

pub ghost struct EnvModel {
    pub key: Seq<char>,
    pub value: Seq<char>,
}

impl View for EnvPair {
    type V = EnvModel;

    open spec fn view(&self) -> EnvModel {
        EnvModel { key: self.key@, value: self.value@ }
    }
}

/// Everything the launcher needs to start one service: its logical name, its
/// assigned TCP port, its startup deadline, and its environment overrides in
/// order.
pub struct ServiceSpec {
    pub name: String,
    pub port: u16,
    pub deadline_ms: u64,
    pub envs: Vec<EnvPair>,
}

pub ghost struct ServiceSpecModel {
    pub name: Seq<char>,
    pub port: u16,
    pub deadline_ms: u64,
    pub envs: Seq<EnvModel>,
}

pub open spec fn envs_view(envs: Seq<EnvPair>) -> Seq<EnvModel> {
    envs.map_values(|e: EnvPair| e@)
}

impl View for ServiceSpec {
    type V = ServiceSpecModel;

    open spec fn view(&self) -> ServiceSpecModel {
        ServiceSpecModel {
            name: self.name@,
            port: self.port,
            deadline_ms: self.deadline_ms,
            envs: envs_view(self.envs@),
        }
    }
}

/// The data directory actually used: what the host resolved, or the relative
/// fallback when the application-private directory is unavailable.
pub open spec fn dir_or_default_spec(resolved: Option<Seq<char>>) -> Seq<char> {
    match resolved {
        Some(d) => d,
        None => "."@,
    }
}

/// Falls back to the relative current directory when the host could not
/// resolve an application-private data directory; never fails outright.
pub fn data_dir_or_default(resolved: &Option<String>) -> (r: String)
    ensures
        r@ == dir_or_default_spec(
            match *resolved {
                Some(d) => Some(d@),
                None => None,
            },
        ),
{
    match resolved {
        Some(d) => d.clone(),
        None => String::from_str("."),
    }
}

/// The loopback base URL a service is reachable under once ready.
pub open spec fn base_url_spec(port: u16) -> Seq<char> {
    "http://127.0.0.1:"@ + dec_of(port as nat)
}

/// Builds the loopback base URL for `port`, the address the secondary service
/// is given to reach the primary.
pub fn base_url_for(port: u16) -> (r: String)
    ensures
        r@ == base_url_spec(port),
{
    String::from_str("http://127.0.0.1:").concat(decimal_u16(port).as_str())
}

/// The per-service append-mode log file: `{data_dir}/logs/{name}.log`.
pub open spec fn log_path_spec(data_dir: Seq<char>, name: Seq<char>) -> Seq<char> {
    data_dir + "/logs/"@ + name + ".log"@
}

/// Builds the log file path for the service `name` under `data_dir`.
pub fn log_path_for(data_dir: &str, name: &str) -> (r: String)
    ensures
        r@ == log_path_spec(data_dir@, name@),
{
    let r = String::from_str(data_dir).concat("/logs/").concat(name).concat(".log");
    proof {
        assert(r@ =~= log_path_spec(data_dir@, name@));
    }
    r
}

fn env_pair(key: &str, value: String) -> (r: EnvPair)
    ensures
        r@ == (EnvModel { key: key@, value: value@ }),
{
    EnvPair { key: String::from_str(key), value }
}

/// The launch request for the primary service: its assigned port and the data
/// directory it persists its runtime configuration under.
pub open spec fn primary_spec_model(data_dir: Seq<char>) -> ServiceSpecModel {
    ServiceSpecModel {
        name: "karios-ai-service"@,
        port: PRIMARY_PORT,
        deadline_ms: PRIMARY_DEADLINE_MS,
        envs: seq![
            EnvModel { key: "PORT"@, value: dec_of(PRIMARY_PORT as nat) },
            EnvModel { key: "NODE_ENV"@, value: "production"@ },
            EnvModel { key: "KARIOS_APP_DATA_DIR"@, value: data_dir },
        ],
    }
}

/// Builds the primary service's launch request.
pub fn primary_launch_spec(data_dir: &str) -> (r: ServiceSpec)
    ensures
        r@ == primary_spec_model(data_dir@),
{
    let mut envs: Vec<EnvPair> = Vec::new();
    envs.push(env_pair("PORT", decimal_u16(PRIMARY_PORT)));
    envs.push(env_pair("NODE_ENV", String::from_str("production")));
    envs.push(env_pair("KARIOS_APP_DATA_DIR", String::from_str(data_dir)));
    let r = ServiceSpec {
        name: String::from_str("karios-ai-service"),
        port: PRIMARY_PORT,
        deadline_ms: PRIMARY_DEADLINE_MS,
        envs,
    };
    proof {
        assert(r@.envs =~= primary_spec_model(data_dir@).envs);
    }
    r
}

/// The launch request for the secondary service: its own port, the host it
/// binds, the primary's resolved base URL, an output-buffering-disable flag,
/// and a persistent-storage file rooted in the data directory.
pub open spec fn secondary_spec_model(data_dir: Seq<char>) -> ServiceSpecModel {
    ServiceSpecModel {
        name: "karios-quant-service"@,
        port: SECONDARY_PORT,
        deadline_ms: SECONDARY_DEADLINE_MS,
        envs: seq![
            EnvModel { key: "HOST"@, value: "127.0.0.1"@ },
            EnvModel { key: "PORT"@, value: dec_of(SECONDARY_PORT as nat) },
            EnvModel { key: "AI_SERVICE_BASE_URL"@, value: base_url_spec(PRIMARY_PORT) },
            EnvModel { key: "PYTHONUNBUFFERED"@, value: "1"@ },
            EnvModel { key: "DATABASE_PATH"@, value: join_spec(data_dir, "karios.sqlite3"@) },
        ],
    }
}

/// Builds the secondary service's launch request.
pub fn secondary_launch_spec(data_dir: &str) -> (r: ServiceSpec)
    ensures
        r@ == secondary_spec_model(data_dir@),
{
    let mut envs: Vec<EnvPair> = Vec::new();
    envs.push(env_pair("HOST", String::from_str("127.0.0.1")));
    envs.push(env_pair("PORT", decimal_u16(SECONDARY_PORT)));
    envs.push(env_pair("AI_SERVICE_BASE_URL", base_url_for(PRIMARY_PORT)));
    envs.push(env_pair("PYTHONUNBUFFERED", String::from_str("1")));
    envs.push(env_pair("DATABASE_PATH", path_join(data_dir, "karios.sqlite3")));
    let r = ServiceSpec {
        name: String::from_str("karios-quant-service"),
        port: SECONDARY_PORT,
        deadline_ms: SECONDARY_DEADLINE_MS,
        envs,
    };
    proof {
        assert(r@.envs =~= secondary_spec_model(data_dir@).envs);
    }
    r
}

/// The marker a supervised child can detect: every spawned service gets it on
/// top of its own overrides.
pub open spec fn sidecar_marker_model() -> EnvModel {
    EnvModel { key: "KARIOS_SIDE_CAR"@, value: "1"@ }
}

impl ServiceSpec {
    /// The environment the launcher applies when spawning this service: the
    /// request's overrides, in order, plus the fixed sidecar-identification
    /// marker appended last.
    pub fn launch_env(&self) -> (r: Vec<EnvPair>)
        ensures
            envs_view(r@) == self@.envs.push(sidecar_marker_model()),
    {
        let mut r: Vec<EnvPair> = Vec::new();
        let mut k: usize = 0;
        while k < self.envs.len()
            invariant
                k <= self.envs@.len(),
                r@.len() == k,
                forall|i: int| 0 <= i < k ==> #[trigger] r@[i]@ == self.envs@[i]@,
            decreases self.envs@.len() - k,
        {
            let e = &self.envs[k];
            let key = e.key.clone();
            let value = e.value.clone();
            r.push(EnvPair { key, value });
            k += 1;
        }
        r.push(env_pair("KARIOS_SIDE_CAR", String::from_str("1")));
        proof {
            assert forall|i: int| 0 <= i < r@.len() implies #[trigger] envs_view(r@)[i]
                == self@.envs.push(sidecar_marker_model())[i] by {
                if i < r@.len() - 1 {
                    assert(r@[i]@ == self.envs@[i]@);
                }
            }
            assert(envs_view(r@) =~= self@.envs.push(sidecar_marker_model()));
        }
        r
    }
}

} // verus!
