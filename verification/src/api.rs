//! The command-line client's view of the API: cache keys and parameter
//! validation, reported through the client's error type.

use vstd::prelude::*;
use crate::canonical::cache_key_spec;
use crate::cli_error::{CliError, CliResult};
use crate::params::ParamSet;
use crate::validation::{MethodRule, RuleForm, method_rule, rule_for, rule_satisfied,
    rule_missing_message, check_any_of, check_all_of, check_all_three, check_pair_or_alt};

verus! {

/// A route path with its leading slashes removed.
pub open spec fn trim_leading_slashes(s: Seq<char>) -> Seq<char>
    decreases s.len(),
{
    if s.len() > 0 && s[0] == '/' {
        trim_leading_slashes(s.drop_first())
    } else {
        s
    }
}

/// A path with every separator turned into a method-name dot.
pub open spec fn slashes_to_dots(s: Seq<char>) -> Seq<char> {
    s.map_values(
        |c: char|
            if c == '/' {
                '.'
            } else {
                c
            },
    )
}

/// The method name an endpoint path denotes: the path without its leading
/// slashes, separators read as dots.
pub fn extract_method(endpoint: &str) -> (r: String)
    ensures
        r@ == slashes_to_dots(trim_leading_slashes(endpoint@)),
{
    let n = endpoint.unicode_len();
    let mut start: usize = 0;
    proof {
        assert(endpoint@.skip(0) =~= endpoint@);
    }
    while start < n && endpoint.get_char(start) == '/'
        invariant
            0 <= start <= n,
            n == endpoint@.len(),
            trim_leading_slashes(endpoint@) == trim_leading_slashes(endpoint@.skip(start as int)),
        decreases n - start,
    {
        proof {
            assert(endpoint@.skip(start as int)[0] == '/');
            assert(endpoint@.skip(start as int).drop_first() =~= endpoint@.skip(
                start as int + 1,
            ));
        }
        start = start + 1;
    }
    proof {
        if start < n {
            assert(endpoint@.skip(start as int)[0] != '/');
        }
        assert(trim_leading_slashes(endpoint@.skip(start as int)) == endpoint@.skip(
            start as int,
        ));
    }
    let ghost tail = endpoint@.skip(start as int);
    let mut out = String::new();
    proof {
        assert(out@ =~= slashes_to_dots(tail.take(0)));
    }
    let mut i: usize = start;
    while i < n
        invariant
            start <= i <= n,
            n == endpoint@.len(),
            tail == endpoint@.skip(start as int),
            out@ == slashes_to_dots(tail.take(i - start)),
        decreases n - i,
    {
        let c = endpoint.get_char(i);
        if c == '/' {
            crate::store::push_char(&mut out, '.');
        } else {
            crate::store::push_char(&mut out, c);
        }
        proof {
            assert(tail[i - start] == endpoint@[i as int]);
            assert(out@ =~= slashes_to_dots(tail.take(i + 1 - start)));
        }
        i = i + 1;
    }
    proof {
        assert(tail.take(n - start) =~= tail);
    }
    out
}

/// The client's error for an upstream error report: local-validation codes
/// keep the reported message, the other known codes map to their fixed
/// descriptions, the rate-limit code to the rate-limit error, and anything
/// else to an API error with the reported message.
pub fn check_response_error(code: u64, message: &str) -> (r: CliError)
    ensures
        match r {
            CliError::Validation(m) => code == 6 && m@ == message@,
            CliError::Api(m) => (code == 10 && m@ == "Invalid API key"@) || (code == 11 && m@
                == "Service offline"@) || (code == 13 && m@ == "Invalid signature"@) || (code
                == 16 && m@ == "Temporary error"@) || (!(code == 6 || code == 10 || code == 11
                || code == 13 || code == 16 || code == 29) && m@ == message@),
            CliError::RateLimit => code == 29,
            _ => false,
        },
{
    if code == 6 {
        CliError::validation(message)
    } else if code == 10 {
        CliError::api("Invalid API key")
    } else if code == 11 {
        CliError::api("Service offline")
    } else if code == 13 {
        CliError::api("Invalid signature")
    } else if code == 16 {
        CliError::api("Temporary error")
    } else if code == 29 {
        CliError::RateLimit
    } else {
        CliError::api(message)
    }
}

/// Build a cache key from method and parameters.
pub fn build_cache_key(method: &str, params: &ParamSet) -> (r: String)
    requires
        params.wf(),
    ensures
        r@ == cache_key_spec(method@, params@),
{
    params.cache_key(method)
}

/// Validate required parameters for a method. A single missing parameter
/// is reported as a missing argument under its own name; group
/// requirements and unknown methods are reported as validation errors
/// carrying the full message.
pub fn validate_method_params(method: &str, params: &ParamSet) -> (r: CliResult<()>)
    requires
        params.wf(),
    ensures
        match r {
            Ok(()) => rule_for(method@) is Some && rule_satisfied(
                rule_for(method@)->Some_0,
                params@,
            ),
            Err(e) => {
                &&& !(rule_for(method@) is Some && rule_satisfied(
                    rule_for(method@)->Some_0,
                    params@,
                ))
                &&& match rule_for(method@) {
                    Some(rule) => match rule {
                        RuleForm::Required(k) => e matches CliError::MissingArgument(m) && m@
                            == k,
                        _ => e matches CliError::Validation(m) && m@ == rule_missing_message(
                            rule,
                        ),
                    },
                    None => e matches CliError::Validation(m) && m@ == "Unknown method: "@
                        + method@,
                }
            },
        },
{
    match method_rule(method) {
        None => {
            let mut msg = String::new();
            msg.append("Unknown method: ");
            msg.append(method);
            Err(CliError::Validation(msg))
        },
        Some(MethodRule::NoneRequired) => Ok(()),
        Some(MethodRule::Required(k)) => {
            if params.contains_key(k.as_str()) {
                Ok(())
            } else {
                Err(CliError::MissingArgument(k))
            }
        },
        Some(MethodRule::AnyOf(a, b)) => match check_any_of(params, a.as_str(), b.as_str()) {
            Ok(()) => Ok(()),
            Err(msg) => Err(CliError::Validation(msg)),
        },
        Some(MethodRule::AllOf(a, b)) => match check_all_of(params, a.as_str(), b.as_str()) {
            Ok(()) => Ok(()),
            Err(msg) => Err(CliError::Validation(msg)),
        },
        Some(MethodRule::AllOfThree(a, b, c)) => match check_all_three(
            params,
            a.as_str(),
            b.as_str(),
            c.as_str(),
        ) {
            Ok(()) => Ok(()),
            Err(msg) => Err(CliError::Validation(msg)),
        },
        Some(MethodRule::PairOrAlt(a, b, alt)) => match check_pair_or_alt(
            params,
            a.as_str(),
            b.as_str(),
            alt.as_str(),
        ) {
            Ok(()) => Ok(()),
            Err(msg) => Err(CliError::Validation(msg)),
        },
    }
}

} // verus!
