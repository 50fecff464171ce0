//! Service configuration: the values the registry's HTTP front needs,
//! resolved from optional inputs with the documented defaults, and the
//! address string the server binds to.
//!
//! Reading the process environment is the caller's business; the resolution
//! rules themselves are verified here, including the decimal parsing and
//! rendering of the port.

use vstd::prelude::*;
use vstd::string::StrSliceExecFns;
use vstd::string::StringExecFns;

verus! {

/// Why a configuration could not be resolved.
#[derive(Clone, Copy, Debug, PartialEq, Eq, Structural)]
pub enum ConfigError {
    /// No contract id was supplied; there is no default.
    MissingContractId,
    /// No administrator secret key was supplied; there is no default.
    MissingAdminSecretKey,
    /// The supplied port is not a decimal number a port can hold.
    InvalidApiPort,
}

impl ConfigError {
    /// A human-readable message for each kind.
    pub fn describe(&self) -> (m: String)
        ensures
            *self is MissingContractId ==> m@
                == "FASHION_AUTH_CONTRACT_ID environment variable is required"@,
            *self is MissingAdminSecretKey ==> m@
                == "ADMIN_SECRET_KEY environment variable is required"@,
            *self is InvalidApiPort ==> m@ == "Invalid API_PORT format"@,
    {
        match self {
            ConfigError::MissingContractId => {
                "FASHION_AUTH_CONTRACT_ID environment variable is required".to_owned()
            },
            ConfigError::MissingAdminSecretKey => {
                "ADMIN_SECRET_KEY environment variable is required".to_owned()
            },
            ConfigError::InvalidApiPort => "Invalid API_PORT format".to_owned(),
        }
    }
}

/// The resolved application configuration.
#[derive(Clone, Debug)]
pub struct Config {
    pub soroban_network_passphrase: String,
    pub soroban_rpc_url: String,
    pub fashion_auth_contract_id: String,
    pub admin_secret_key: String,
    pub api_host: String,
    pub api_port: u16,
}

/// A decimal digit.
pub open spec fn is_dec_digit(c: char) -> bool {
    48 <= c as u32 <= 57
}

/// Every character of the sequence is a decimal digit.
pub open spec fn all_dec_digits(s: Seq<char>) -> bool {
    forall|i: int| 0 <= i < s.len() ==> is_dec_digit(s[i])
}

/// The number a sequence of decimal digits denotes.
pub open spec fn dec_value(s: Seq<char>) -> int
    decreases s.len(),
{
    if s.len() == 0 {
        0
    } else {
        dec_value(s.drop_last()) * 10 + (s.last() as u32 - 48)
    }
}

/// What port parsing answers: the denoted number for a non-empty string of
/// decimal digits whose value a port can hold, nothing otherwise.
pub open spec fn spec_parse_port(s: Seq<char>) -> Option<u16> {
    if s.len() > 0 && all_dec_digits(s) && dec_value(s) <= 65535 {
        Some(dec_value(s) as u16)
    } else {
        None
    }
}

proof fn lemma_dec_value_nonneg(s: Seq<char>)
    requires
        all_dec_digits(s),
    ensures
        dec_value(s) >= 0,
    decreases s.len(),
{
    if s.len() > 0 {
        assert(all_dec_digits(s.drop_last())) by {
            assert forall|i: int|
                0 <= i < s.drop_last().len() implies is_dec_digit(s.drop_last()[i]) by {
                assert(s.drop_last()[i] == s[i]);
            }
        }
        lemma_dec_value_nonneg(s.drop_last());
    }
}

proof fn lemma_dec_value_grows(s: Seq<char>, i: int)
    requires
        all_dec_digits(s),
        0 <= i <= s.len(),
    ensures
        dec_value(s.subrange(0, i)) <= dec_value(s),
    decreases s.len() - i,
{
    if i == s.len() {
        assert(s.subrange(0, i) =~= s);
    } else {
        assert(all_dec_digits(s.subrange(0, i))) by {
            assert forall|k: int|
                0 <= k < s.subrange(0, i).len() implies is_dec_digit(s.subrange(0, i)[k]) by {
                assert(s.subrange(0, i)[k] == s[k]);
            }
        }
        lemma_dec_value_nonneg(s.subrange(0, i));
        assert(s.subrange(0, i + 1).drop_last() =~= s.subrange(0, i));
        assert(dec_value(s.subrange(0, i)) <= dec_value(s.subrange(0, i + 1)));
        lemma_dec_value_grows(s, i + 1);
    }
}

/// Parse a port number: accepts exactly the non-empty all-digit strings
/// whose value fits, leading zeros allowed.
pub fn parse_port(s: &str) -> (r: Option<u16>)
    ensures
        r == spec_parse_port(s@),
{
    let n = s.unicode_len();
    if n == 0 {
        return None;
    }
    let mut acc: u32 = 0;
    let mut i: usize = 0;
    while i < n
        invariant
            0 < n == s@.len(),
            i <= n,
            forall|k: int| 0 <= k < i ==> is_dec_digit(s@[k]),
            acc == dec_value(s@.subrange(0, i as int)),
            acc <= 65535,
        decreases n - i,
    {
        let c = s.get_char(i);
        let d = c as u32;
        if d < 48 || d > 57 {
            return None;
        }
        let next = acc * 10 + (d - 48);
        proof {
            assert(s@.subrange(0, i + 1).drop_last() =~= s@.subrange(0, i as int));
            assert(next == dec_value(s@.subrange(0, i + 1)));
        }
        if next > 65535 {
            proof {
                if all_dec_digits(s@) {
                    lemma_dec_value_grows(s@, i + 1);
                }
            }
            return None;
        }
        acc = next;
        i += 1;
    }
    proof {
        assert(s@.subrange(0, n as int) =~= s@);
    }
    Some(acc as u16)
}

/// The character for one digit.
pub open spec fn digit_char(d: int) -> char {
    if d == 0 {
        '0'
    } else if d == 1 {
        '1'
    } else if d == 2 {
        '2'
    } else if d == 3 {
        '3'
    } else if d == 4 {
        '4'
    } else if d == 5 {
        '5'
    } else if d == 6 {
        '6'
    } else if d == 7 {
        '7'
    } else if d == 8 {
        '8'
    } else {
        '9'
    }
}

/// The decimal rendering of a number: most significant digit first, no
/// leading zeros, a single zero for zero.
pub open spec fn dec_chars(n: int) -> Seq<char>
    decreases n,
{
    if n < 10 {
        seq![digit_char(n)]
    } else {
        dec_chars(n / 10).push(digit_char(n % 10))
    }
}

/// Rendering and parsing agree: the decimal rendering of a number is a
/// non-empty digit string denoting exactly that number.
pub proof fn lemma_decimal_round_trip(n: int)
    requires
        0 <= n,
    ensures
        dec_chars(n).len() > 0,
        all_dec_digits(dec_chars(n)),
        dec_value(dec_chars(n)) == n,
    decreases n,
{
    if n < 10 {
        assert(dec_chars(n) =~= seq![digit_char(n)]);
        assert(dec_chars(n).drop_last() =~= Seq::<char>::empty());
        assert(dec_value(dec_chars(n).drop_last()) == 0);
        assert(dec_chars(n).last() == digit_char(n));
        assert(digit_char(n) as u32 == n + 48);
        assert(dec_value(dec_chars(n)) == digit_char(n) as u32 - 48);
    } else {
        lemma_decimal_round_trip(n / 10);
        assert(dec_chars(n).drop_last() =~= dec_chars(n / 10));
        assert(all_dec_digits(dec_chars(n))) by {
            assert forall|i: int|
                0 <= i < dec_chars(n).len() implies is_dec_digit(dec_chars(n)[i]) by {
                if i < dec_chars(n).len() - 1 {
                    assert(dec_chars(n)[i] == dec_chars(n / 10)[i]);
                }
            }
        }
    }
}

fn digit_str(d: u16) -> (r: &'static str)
    requires
        d < 10,
    ensures
        r@ == seq![digit_char(d as int)],
{
    let r: &'static str = match d {
        0 => "0",
        1 => "1",
        2 => "2",
        3 => "3",
        4 => "4",
        5 => "5",
        6 => "6",
        7 => "7",
        8 => "8",
        _ => "9",
    };
    proof {
        reveal_strlit("0");
        reveal_strlit("1");
        reveal_strlit("2");
        reveal_strlit("3");
        reveal_strlit("4");
        reveal_strlit("5");
        reveal_strlit("6");
        reveal_strlit("7");
        reveal_strlit("8");
        reveal_strlit("9");
        assert(r@ =~= seq![digit_char(d as int)]);
    }
    r
}

fn push_decimal(out: &mut String, n: u16)
    ensures
        final(out)@ == old(out)@ + dec_chars(n as int),
    decreases n,
{
    if n >= 10 {
        push_decimal(out, n / 10);
    }
    out.append(digit_str(n % 10));
    proof {
        if n >= 10 {
            assert(old(out)@ + dec_chars((n / 10) as int) + seq![digit_char((n % 10) as int)]
                =~= old(out)@ + dec_chars(n as int));
        } else {
            assert(old(out)@ + seq![digit_char(n as int)] =~= old(out)@ + dec_chars(n as int));
        }
    }
}

impl Config {
    /// Resolve a configuration from optional raw values. The network
    /// passphrase, the node address and the host fall back to their
    /// documented defaults; the contract id and the administrator secret
    /// key are required; the port must parse if supplied and defaults to
    /// 3000 otherwise.
    pub fn from_values(
        soroban_network_passphrase: Option<String>,
        soroban_rpc_url: Option<String>,
        fashion_auth_contract_id: Option<String>,
        admin_secret_key: Option<String>,
        api_host: Option<String>,
        api_port: Option<String>,
    ) -> (r: Result<Config, ConfigError>)
        ensures
            fashion_auth_contract_id is None ==> r == Err::<Config, ConfigError>(
                ConfigError::MissingContractId,
            ),
            fashion_auth_contract_id is Some && admin_secret_key is None ==> r == Err::<
                Config,
                ConfigError,
            >(ConfigError::MissingAdminSecretKey),
            fashion_auth_contract_id is Some && admin_secret_key is Some && (api_port matches Some(
                p,
            ) && spec_parse_port(p@) is None) ==> r == Err::<Config, ConfigError>(
                ConfigError::InvalidApiPort,
            ),
            r is Ok <==> fashion_auth_contract_id is Some && admin_secret_key is Some && match
                api_port {
                Some(p) => spec_parse_port(p@) is Some,
                None => true,
            },
            r matches Ok(c) ==> {
                &&& c.fashion_auth_contract_id@ == fashion_auth_contract_id->0@
                &&& c.admin_secret_key@ == admin_secret_key->0@
                &&& c.soroban_network_passphrase@ == match soroban_network_passphrase {
                    Some(s) => s@,
                    None => "Test SDF Network ; September 2015"@,
                }
                &&& c.soroban_rpc_url@ == match soroban_rpc_url {
                    Some(s) => s@,
                    None => "https://soroban-testnet.stellar.org:443"@,
                }
                &&& c.api_host@ == match api_host {
                    Some(s) => s@,
                    None => "127.0.0.1"@,
                }
                &&& c.api_port == match api_port {
                    Some(p) => spec_parse_port(p@)->0,
                    None => 3000u16,
                }
            },
    {
        let soroban_network_passphrase = match soroban_network_passphrase {
            Some(s) => s,
            None => "Test SDF Network ; September 2015".to_owned(),
        };
        let soroban_rpc_url = match soroban_rpc_url {
            Some(s) => s,
            None => "https://soroban-testnet.stellar.org:443".to_owned(),
        };
        let fashion_auth_contract_id = match fashion_auth_contract_id {
            Some(s) => s,
            None => {
                return Err(ConfigError::MissingContractId);
            },
        };
        let admin_secret_key = match admin_secret_key {
            Some(s) => s,
            None => {
                return Err(ConfigError::MissingAdminSecretKey);
            },
        };
        let api_host = match api_host {
            Some(s) => s,
            None => "127.0.0.1".to_owned(),
        };
        let api_port = match api_port {
            Some(p) => match parse_port(p.as_str()) {
                Some(v) => v,
                None => {
                    return Err(ConfigError::InvalidApiPort);
                },
            },
            None => 3000,
        };
        Ok(
            Config {
                soroban_network_passphrase,
                soroban_rpc_url,
                fashion_auth_contract_id,
                admin_secret_key,
                api_host,
                api_port,
            },
        )
    }

    /// The full address the server binds to: the host, a colon, and the
    /// port in decimal.
    pub fn api_address(&self) -> (r: String)
        ensures
            r@ == self.api_host@ + seq![':'] + dec_chars(self.api_port as int),
    {
        let mut r = self.api_host.clone();
        r.append(":");
        proof {
            reveal_strlit(":");
            assert(r@ =~= self.api_host@ + seq![':']);
        }
        push_decimal(&mut r, self.api_port);
        proof {
            assert(r@ =~= self.api_host@ + seq![':'] + dec_chars(self.api_port as int));
        }
        r
    }
}

} // verus!
