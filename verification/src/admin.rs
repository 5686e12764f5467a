//! The admin plane's data shapes and its self-describing API catalog. The
//! handlers that scrape host telemetry or talk to the engine live outside;
//! these are the values they exchange.

use vstd::prelude::*;
use crate::text;

verus! {

/// A character a numeric gauge token may hold: a digit or a dot.
pub open spec fn spec_is_num_char(c: char) -> bool {
    text::spec_is_digit(c) || c == '.'
}

/// Every character of `t` is a digit or a dot.
pub open spec fn spec_all_num(t: Seq<char>) -> bool {
    forall|i: int| 0 <= i < t.len() ==> spec_is_num_char(#[trigger] t[i])
}

/// The first token made only of digits and dots, if any.
pub open spec fn spec_first_numeric(tokens: Seq<Seq<char>>) -> Option<Seq<char>>
    decreases tokens.len(),
{
    if tokens.len() == 0 {
        None
    } else if spec_all_num(tokens[0]) {
        Some(tokens[0])
    } else {
        spec_first_numeric(tokens.subrange(1, tokens.len() as int))
    }
}

/// `t` without its trailing dots.
pub open spec fn spec_strip_dots(t: Seq<char>) -> Seq<char>
    decreases t.len(),
{
    if t.len() > 0 && t.last() == '.' {
        spec_strip_dots(t.drop_last())
    } else {
        t
    }
}

/// What a gauge line yields: its first numeric token, trailing dots
/// stripped, read as a number; zero when no token qualifies or the stripped
/// token does not parse.
pub open spec fn spec_extract_number(line: Seq<char>) -> u64 {
    match spec_first_numeric(text::spec_split_ws(line)) {
        None => 0u64,
        Some(t) => match text::spec_parse_u64(spec_strip_dots(t)) {
            Some(v) => v,
            None => 0u64,
        },
    }
}

/// Every character of `t` is a digit or a dot.
fn all_num_chars(t: &str) -> (r: bool)
    ensures
        r == spec_all_num(t@),
{
    let n = t.unicode_len();
    let mut i: usize = 0;
    while i < n
        invariant
            n == t@.len(),
            0 <= i <= n,
            forall|p: int| 0 <= p < i ==> spec_is_num_char(#[trigger] t@[p]),
        decreases n - i,
    {
        let c = t.get_char(i);
        let v = c as u32;
        let digit = 48 <= v && v <= 57;
        if !digit && c != '.' {
            proof {
                assert(!spec_is_num_char(t@[i as int]));
            }
            return false;
        }
        i += 1;
    }
    true
}

/// The length of `t` once its trailing dots are stripped.
fn strip_dots_len(t: &str) -> (r: usize)
    ensures
        r <= t@.len(),
        spec_strip_dots(t@) == t@.subrange(0, r as int),
{
    let n = t.unicode_len();
    let mut i: usize = n;
    proof {
        assert(t@.subrange(0, n as int) =~= t@);
    }
    while i > 0
        invariant
            n == t@.len(),
            0 <= i <= n,
            spec_strip_dots(t@) == spec_strip_dots(t@.subrange(0, i as int)),
        decreases i,
    {
        proof {
            assert(t@.subrange(0, i as int).drop_last() =~= t@.subrange(0, i - 1));
            assert(t@.subrange(0, i as int).last() == t@[i - 1]);
        }
        if t.get_char(i - 1) != '.' {
            return i;
        }
        i -= 1;
    }
    proof {
        assert(t@.subrange(0, 0).len() == 0);
    }
    0
}

/// Reads a gauge number out of a telemetry line such as `Pages free:
/// 12345.`: the first whitespace token made only of digits and dots, its
/// trailing dots stripped; zero when nothing qualifies.
pub fn extract_number_from_line(line: &str) -> (r: u64)
    ensures
        r == spec_extract_number(line@),
{
    let tokens = text::split_ws(line);
    let n = tokens.len();
    let mut i: usize = 0;
    proof {
        assert(tokens.deep_view().len() == tokens@.len());
        assert(tokens.deep_view().subrange(0, tokens.deep_view().len() as int)
            =~~= tokens.deep_view());
    }
    while i < n
        invariant
            tokens.deep_view() == text::spec_split_ws(line@),
            n == tokens.deep_view().len(),
            0 <= i <= n,
            spec_first_numeric(text::spec_split_ws(line@)) == spec_first_numeric(
                tokens.deep_view().subrange(i as int, n as int),
            ),
        decreases n - i,
    {
        proof {
            assert(tokens.deep_view().subrange(i as int, n as int)[0]
                == tokens.deep_view()[i as int]);
            assert(tokens.deep_view().subrange(i as int, n as int).subrange(
                1,
                (n - i) as int,
            ) =~~= tokens.deep_view().subrange(i + 1, n as int));
        }
        let t = &tokens[i];
        proof {
            assert(tokens.deep_view()[i as int] == t@);
        }
        if all_num_chars(t.as_str()) {
            proof {
                assert(spec_first_numeric(
                    tokens.deep_view().subrange(i as int, n as int),
                ) == Some(t@));
            }
            let keep = strip_dots_len(t.as_str());
            let stripped = t.as_str().substring_char(0, keep);
            return match text::parse_u64(stripped) {
                Some(v) => v,
                None => 0,
            };
        }
        i += 1;
    }
    0
}

/// The aggregate counters of the first `cpu ` line of a `/proc/stat` dump.
pub struct CpuStats {
    pub total: u64,
    pub idle: u64,
}

/// The text up to the first newline.
pub open spec fn spec_first_line(s: Seq<char>) -> Seq<char>
    decreases s.len(),
{
    if s.len() == 0 {
        Seq::empty()
    } else if s[0] == '\n' {
        Seq::empty()
    } else {
        seq![s[0]] + spec_first_line(s.subrange(1, s.len() as int))
    }
}

proof fn lemma_first_line_prefix(s: Seq<char>, j: int)
    requires
        0 <= j <= s.len(),
        forall|k: int| 0 <= k < j ==> s[k] != '\n',
        j == s.len() || s[j] == '\n',
    ensures
        spec_first_line(s) =~= s.subrange(0, j),
    decreases j,
{
    if s.len() == 0 {
    } else if j == 0 {
    } else {
        let tail = s.subrange(1, s.len() as int);
        lemma_first_line_prefix(tail, j - 1);
        assert(seq![s[0]] + tail.subrange(0, j - 1) =~= s.subrange(0, j));
    }
}

/// The first line of `s`.
fn first_line(s: &str) -> (r: &str)
    ensures
        r@ == spec_first_line(s@),
{
    let n = s.unicode_len();
    let mut i: usize = 0;
    while i < n
        invariant
            n == s@.len(),
            0 <= i <= n,
            forall|k: int| 0 <= k < i ==> s@[k] != '\n',
        decreases n - i,
    {
        if s.get_char(i) == '\n' {
            proof {
                lemma_first_line_prefix(s@, i as int);
            }
            return s.substring_char(0, i);
        }
        i += 1;
    }
    proof {
        lemma_first_line_prefix(s@, n as int);
        assert(s@.subrange(0, n as int) =~= s@);
    }
    s
}

/// One optional counter field: missing or unparseable reads as zero.
pub open spec fn spec_field_or_zero(parts: Seq<Seq<char>>, i: int) -> u64 {
    if 0 <= i < parts.len() {
        match text::spec_parse_u64(parts[i]) {
            Some(v) => v,
            None => 0u64,
        }
    } else {
        0u64
    }
}

/// What parsing a `/proc/stat` dump yields: the first line must start with
/// `cpu ` and carry at least four counters; user, nice, system and idle must
/// parse; the four optional counters read as zero when absent; the total is
/// their sum, refused if it cannot be represented.
pub open spec fn spec_parse_cpu(s: Seq<char>) -> Option<CpuStats> {
    let line = spec_first_line(s);
    if !text::starts_with_seq(line, "cpu "@) {
        None
    } else {
        let parts = text::spec_split_ws(line);
        if parts.len() < 5 {
            None
        } else {
            match (
                text::spec_parse_u64(parts[1]),
                text::spec_parse_u64(parts[2]),
                text::spec_parse_u64(parts[3]),
                text::spec_parse_u64(parts[4]),
            ) {
                (Some(user), Some(nice), Some(system), Some(idle)) => {
                    let total = user + nice + system + idle + spec_field_or_zero(parts, 5)
                        + spec_field_or_zero(parts, 6) + spec_field_or_zero(parts, 7)
                        + spec_field_or_zero(parts, 8);
                    if total > u64::MAX {
                        None
                    } else {
                        Some(CpuStats { total: total as u64, idle })
                    }
                },
                _ => None,
            }
        }
    }
}

fn field_or_zero(parts: &Vec<String>, i: usize) -> (r: u64)
    ensures
        r == spec_field_or_zero(parts.deep_view(), i as int),
{
    if i < parts.len() {
        match text::parse_u64(parts[i].as_str()) {
            Some(v) => v,
            None => 0,
        }
    } else {
        0
    }
}

/// Parses the aggregate CPU counters out of a `/proc/stat` dump; `None`
/// when the dump has no well-formed `cpu ` line or the total cannot be
/// represented.
pub fn parse_cpu_line(stat_content: &str) -> (r: Option<CpuStats>)
    ensures
        match r {
            Some(stats) => spec_parse_cpu(stat_content@) == Some(
                CpuStats { total: stats.total, idle: stats.idle },
            ),
            None => spec_parse_cpu(stat_content@) is None,
        },
{
    let line = first_line(stat_content);
    if !text::starts_with(line, "cpu ") {
        return None;
    }
    let parts = text::split_ws(line);
    if parts.len() < 5 {
        return None;
    }
    let user = match text::parse_u64(parts[1].as_str()) {
        Some(v) => v,
        None => {
            return None;
        },
    };
    let nice = match text::parse_u64(parts[2].as_str()) {
        Some(v) => v,
        None => {
            return None;
        },
    };
    let system = match text::parse_u64(parts[3].as_str()) {
        Some(v) => v,
        None => {
            return None;
        },
    };
    let idle = match text::parse_u64(parts[4].as_str()) {
        Some(v) => v,
        None => {
            return None;
        },
    };
    let iowait = field_or_zero(&parts, 5);
    let irq = field_or_zero(&parts, 6);
    let softirq = field_or_zero(&parts, 7);
    let steal = field_or_zero(&parts, 8);
    if user > u64::MAX - nice {
        return None;
    }
    let t1 = user + nice;
    if t1 > u64::MAX - system {
        return None;
    }
    let t2 = t1 + system;
    if t2 > u64::MAX - idle {
        return None;
    }
    let t3 = t2 + idle;
    if t3 > u64::MAX - iowait {
        return None;
    }
    let t4 = t3 + iowait;
    if t4 > u64::MAX - irq {
        return None;
    }
    let t5 = t4 + irq;
    if t5 > u64::MAX - softirq {
        return None;
    }
    let t6 = t5 + softirq;
    if t6 > u64::MAX - steal {
        return None;
    }
    let total = t6 + steal;
    Some(CpuStats { total, idle })
}

/// One log line as the admin plane reports it.
pub struct LogEntry {
    pub timestamp: String,
    pub level: String,
    pub message: String,
    pub sandbox_id: Option<String>,
}

/// How many log lines a query asks for.
pub struct LogQuery {
    pub lines: Option<u32>,
}

/// One documented endpoint of the service.
pub struct ApiEndpoint {
    pub method: String,
    pub path: String,
    pub description: String,
    pub parameters: Vec<ApiParameter>,
    pub example_request: Option<String>,
    pub example_response: Option<String>,
}

/// One documented parameter of an endpoint.
pub struct ApiParameter {
    pub name: String,
    pub param_type: String,
    pub required: bool,
    pub description: String,
}

/// A request the admin console replays against the service's own API.
pub struct ApiTestRequest {
    pub method: String,
    pub path: String,
    pub headers: Option<Vec<(String, String)>>,
    pub body: Option<String>,
}

/// What the replayed request answered.
pub struct ApiTestResponse {
    pub status: u16,
    pub headers: Vec<(String, String)>,
    pub body: String,
    pub duration_ms: u64,
}

fn parameter(name: &str, param_type: &str, required: bool, description: &str) -> (p:
    ApiParameter)
    ensures
        p.name@ == name@,
        p.param_type@ == param_type@,
        p.required == required,
        p.description@ == description@,
{
    ApiParameter {
        name: String::from_str(name),
        param_type: String::from_str(param_type),
        required,
        description: String::from_str(description),
    }
}

/// The catalog the admin console documents the service with: the create,
/// inspect, execute and delete endpoints of the sandbox API.
pub fn api_docs() -> (r: Vec<ApiEndpoint>)
    ensures
        r@.len() == 4,
        r@[0].method@ == "POST"@ && r@[0].path@ == "/sandbox"@,
        r@[1].method@ == "GET"@ && r@[1].path@ == "/sandbox/{id}"@,
        r@[2].method@ == "POST"@ && r@[2].path@ == "/sandbox/{id}/execute"@,
        r@[3].method@ == "DELETE"@ && r@[3].path@ == "/sandbox/{id}"@,
{
    let mut docs: Vec<ApiEndpoint> = Vec::new();
    let mut create_params: Vec<ApiParameter> = Vec::new();
    create_params.push(
        parameter("runtime", "string", true, "Runtime environment (bun, node, typescript)"),
    );
    create_params.push(
        parameter("mode", "string", false, "Execution mode (oneshot, persistent)"),
    );
    create_params.push(
        parameter("dev_server", "boolean", false, "Enable development server"),
    );
    docs.push(
        ApiEndpoint {
            method: String::from_str("POST"),
            path: String::from_str("/sandbox"),
            description: String::from_str("Create a new sandbox"),
            parameters: create_params,
            example_request: Some(
                String::from_str(
                    "{\n  \"runtime\": \"bun\",\n  \"code\": \"console.log('Hello World');\",\n  \"mode\": \"persistent\",\n  \"dev_server\": true,\n  \"timeout_ms\": 30000,\n  \"memory_limit_mb\": 256\n}",
                ),
            ),
            example_response: Some(
                String::from_str(
                    "{\n  \"id\": \"abc123\",\n  \"status\": \"Created\",\n  \"runtime\": \"bun\",\n  \"created_at\": \"2025-07-09T11:45:00Z\"\n}",
                ),
            ),
        },
    );
    let mut get_params: Vec<ApiParameter> = Vec::new();
    get_params.push(parameter("id", "string", true, "Sandbox ID"));
    docs.push(
        ApiEndpoint {
            method: String::from_str("GET"),
            path: String::from_str("/sandbox/{id}"),
            description: String::from_str("Get sandbox information"),
            parameters: get_params,
            example_request: None,
            example_response: Some(
                String::from_str(
                    "{\n  \"id\": \"abc123\",\n  \"status\": \"Running\",\n  \"runtime\": \"bun\",\n  \"created_at\": \"2025-07-09T11:45:00Z\",\n  \"timeout_ms\": 30000,\n  \"memory_limit_mb\": 256\n}",
                ),
            ),
        },
    );
    let mut exec_params: Vec<ApiParameter> = Vec::new();
    exec_params.push(parameter("id", "string", true, "Sandbox ID"));
    docs.push(
        ApiEndpoint {
            method: String::from_str("POST"),
            path: String::from_str("/sandbox/{id}/execute"),
            description: String::from_str("Execute code in sandbox"),
            parameters: exec_params,
            example_request: Some(
                String::from_str(
                    "{\n  \"runtime\": \"bun\",\n  \"code\": \"console.log('Hello from sandbox');\",\n  \"timeout_ms\": 30000\n}",
                ),
            ),
            example_response: Some(
                String::from_str(
                    "{\n  \"sandbox_id\": \"abc123\",\n  \"success\": true,\n  \"stdout\": \"Hello from sandbox\\n\",\n  \"stderr\": \"\",\n  \"exit_code\": 0,\n  \"execution_time_ms\": 125\n}",
                ),
            ),
        },
    );
    let mut delete_params: Vec<ApiParameter> = Vec::new();
    delete_params.push(parameter("id", "string", true, "Sandbox ID"));
    docs.push(
        ApiEndpoint {
            method: String::from_str("DELETE"),
            path: String::from_str("/sandbox/{id}"),
            description: String::from_str("Delete sandbox"),
            parameters: delete_params,
            example_request: None,
            example_response: Some(
                String::from_str(
                    "{\n  \"success\": true,\n  \"message\": \"Sandbox deleted successfully\"\n}",
                ),
            ),
        },
    );
    docs
}

} // verus!
