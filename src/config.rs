use vstd::prelude::*;
use vstd::string::*;

use crate::error::{is_invalid_port, StackError};

verus! {

/// Value of a single decimal digit character.
pub open spec fn digit_value(c: char) -> nat {
    (c as nat - '0' as nat) as nat
}

pub open spec fn is_digit(c: char) -> bool {
    '0' <= c && c <= '9'
}

/// Value of a sequence of decimal digits, most significant first.
pub open spec fn digits_value(s: Seq<char>) -> nat
    decreases s.len(),
{
    if s.len() == 0 {
        0
    } else {
        digits_value(s.drop_last()) * 10 + digit_value(s.last())
    }
}

/// The digits of a port text: a single leading `+` is allowed.
pub open spec fn port_digits(s: Seq<char>) -> Seq<char> {
    if s.len() > 0 && s[0] == '+' {
        s.drop_first()
    } else {
        s
    }
}

/// The port that a text denotes as an unsigned 16-bit decimal integer, if any.
pub open spec fn port_value(s: Seq<char>) -> Option<u16> {
    let d = port_digits(s);
    if d.len() > 0 && (forall|i: int| 0 <= i < d.len() ==> is_digit(#[trigger] d[i]))
        && digits_value(d) <= u16::MAX {
        Some(digits_value(d) as u16)
    } else {
        None
    }
}

/// Empty texts, texts with a character other than a digit (beyond one leading
/// `+`), and values past the 16-bit range are all malformed ports.
pub proof fn lemma_malformed_ports(s: Seq<char>, i: int)
    ensures
        s.len() == 0 ==> port_value(s) is None,
        0 <= i < s.len() && !is_digit(s[i]) && !(i == 0 && s[i] == '+') ==> port_value(s) is None,
        digits_value(port_digits(s)) > u16::MAX ==> port_value(s) is None,
{
    if 0 <= i < s.len() && !is_digit(s[i]) && !(i == 0 && s[i] == '+') {
        let d = port_digits(s);
        if s[0] == '+' {
            assert(d[i - 1] == s[i]);
        } else {
            assert(d[i] == s[i]);
        }
    }
}

/// Reads `s` as an unsigned 16-bit decimal integer.
pub fn parse_port(s: &str) -> (r: Option<u16>)
    ensures
        r == port_value(s@),
{
    let len = s.unicode_len();
    let mut start: usize = 0;
    if len > 0 && s.get_char(0) == '+' {
        start = 1;
    }
    if start >= len {
        return None;
    }
    let ghost d = s@.subrange(start as int, len as int);
    assert(d =~= port_digits(s@));
    let mut i: usize = start;
    let mut value: u32 = 0;
    while i < len
        invariant
            start <= i <= len,
            len == s@.len(),
            d == s@.subrange(start as int, len as int),
            d == port_digits(s@),
            forall|j: int| start <= j < i ==> is_digit(#[trigger] s@[j]),
            value as nat == if digits_value(s@.subrange(start as int, i as int)) > u16::MAX {
                u16::MAX as nat + 1
            } else {
                digits_value(s@.subrange(start as int, i as int))
            },
        decreases len - i,
    {
        let c = s.get_char(i);
        if !('0' <= c && c <= '9') {
            assert(d[i - start] == c);
            assert(!is_digit(d[i - start]));
            return None;
        }
        let ghost prev = s@.subrange(start as int, i as int);
        let ghost next = s@.subrange(start as int, i + 1);
        assert(next.drop_last() =~= prev);
        let digit = (c as u32) - ('0' as u32);
        if value > 65535 {
            assert(digits_value(next) > u16::MAX) by (nonlinear_arith)
                requires
                    digits_value(next) == digits_value(prev) * 10 + digit_value(c),
                    digits_value(prev) > u16::MAX,
            ;
            value = 65536;
        } else {
            value = value * 10 + digit;
            if value > 65535 {
                value = 65536;
            }
        }
        i = i + 1;
    }
    assert(s@.subrange(start as int, len as int) == d);
    if value > 65535 {
        None
    } else {
        Some(value as u16)
    }
}

pub const DEFAULT_SERVER_PORT: u16 = 3000;

pub const DEFAULT_CLIENT_PORT: u16 = 3001;

pub open spec fn default_host() -> Seq<char> {
    "127.0.0.1"@
}

pub open spec fn default_bootstrap_command() -> Seq<char> {
    "bun"@
}

/// The environment variables that the supervisor reads, as found at start-up.
pub struct StackEnv {
    /// `BAO_STACK_HOST`
    pub host: Option<String>,
    /// `PORT`
    pub server_port: Option<String>,
    /// `CLIENT_PORT`
    pub client_port: Option<String>,
    /// `BAO_STACK_BOOTSTRAP_COMMAND`
    pub bootstrap_command: Option<String>,
    /// `BAO_WORKSPACE_ROOT`
    pub workspace_root: Option<String>,
    /// `BAO_DISABLE_AUTH`
    pub disable_auth: Option<String>,
}

/// Host and ports of the two services, fixed for a run.
pub struct StackStartup {
    pub host: String,
    pub server_port: u16,
    pub client_port: u16,
}

/// The port that a variable gives: its default when absent, `None` when malformed.
pub open spec fn port_setting(value: Option<String>, fallback: u16) -> Option<u16> {
    match value {
        None => Some(fallback),
        Some(v) => port_value(v@),
    }
}

pub open spec fn host_setting(env: StackEnv) -> Seq<char> {
    match env.host {
        Some(h) => h@,
        None => default_host(),
    }
}

pub open spec fn bootstrap_command_setting(env: StackEnv) -> Seq<char> {
    match env.bootstrap_command {
        Some(c) => c@,
        None => default_bootstrap_command(),
    }
}

/// Reads the port variable `key`, whose value is `value` when it is set.
pub fn read_env_u16(key: &str, value: &Option<String>, fallback: u16) -> (r: Result<
    u16,
    StackError,
>)
    ensures
        match port_setting(*value, fallback) {
            Some(p) => r == Ok::<u16, StackError>(p),
            None => r is Err && is_invalid_port(r->Err_0, key@, value->Some_0@),
        },
{
    match value {
        None => Ok(fallback),
        Some(v) => match parse_port(v.as_str()) {
            Some(p) => Ok(p),
            None => Err(StackError::InvalidPortValue { key: key.to_owned(), value: v.clone() }),
        },
    }
}

impl StackStartup {
    /// Host and ports from the environment, with their defaults for absent
    /// variables; a malformed port is an error, `PORT` checked first.
    pub fn from_env(env: &StackEnv) -> (r: Result<StackStartup, StackError>)
        ensures
            r is Ok <==> port_setting(env.server_port, DEFAULT_SERVER_PORT) is Some
                && port_setting(env.client_port, DEFAULT_CLIENT_PORT) is Some,
            r is Ok ==> r->Ok_0.host@ == host_setting(*env) && Some(r->Ok_0.server_port)
                == port_setting(env.server_port, DEFAULT_SERVER_PORT) && Some(r->Ok_0.client_port)
                == port_setting(env.client_port, DEFAULT_CLIENT_PORT),
            port_setting(env.server_port, DEFAULT_SERVER_PORT) is None ==> r is Err
                && is_invalid_port(r->Err_0, "PORT"@, env.server_port->Some_0@),
            port_setting(env.server_port, DEFAULT_SERVER_PORT) is Some && port_setting(
                env.client_port,
                DEFAULT_CLIENT_PORT,
            ) is None ==> r is Err && is_invalid_port(
                r->Err_0,
                "CLIENT_PORT"@,
                env.client_port->Some_0@,
            ),
    {
        let server_port = match read_env_u16("PORT", &env.server_port, DEFAULT_SERVER_PORT) {
            Ok(p) => p,
            Err(e) => return Err(e),
        };
        let client_port = match read_env_u16("CLIENT_PORT", &env.client_port, DEFAULT_CLIENT_PORT) {
            Ok(p) => p,
            Err(e) => return Err(e),
        };
        let host = match &env.host {
            Some(h) => h.clone(),
            None => "127.0.0.1".to_owned(),
        };
        Ok(StackStartup { host, server_port, client_port })
    }
}

/// The command that starts the stack: the override when set, else the default tool.
pub fn resolve_bootstrap_command(env: &StackEnv) -> (r: String)
    ensures
        r@ == bootstrap_command_setting(*env),
{
    match &env.bootstrap_command {
        Some(c) => c.clone(),
        None => "bun".to_owned(),
    }
}

/// The authentication override to hand on to the started process, if set.
pub fn resolve_auth_override(env: &StackEnv) -> (r: Option<String>)
    ensures
        r == env.disable_auth,
{
    match &env.disable_auth {
        Some(v) => Some(v.clone()),
        None => None,
    }
}

} // verus!
