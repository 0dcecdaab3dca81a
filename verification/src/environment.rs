//! Values of environment variables.

use vstd::prelude::*;

use crate::error::AppError;
use crate::error::Result;
use crate::number;
use crate::text;

verus! {

/// What the environment holds under a name.
#[derive(Debug)]
pub enum EnvValue {
    Missing,
    Text(String),
    NotUnicode,
}

/// The value of a variable that is set and readable.
pub open spec fn env_text(value: EnvValue) -> Option<Seq<char>> {
    match value {
        EnvValue::Text(content) => Some(content@),
        _ => None,
    }
}

/// The error for a variable whose value is not Unicode.
pub open spec fn unreadable(name: Seq<char>) -> Seq<char> {
    "env var "@ + name + " contains invalid unicode"@
}

/// The error for a variable whose value is no number of the type that is asked for.
pub open spec fn not_a_number(name: Seq<char>) -> Seq<char> {
    "env var "@ + name + " is invalid"@
}

/// The error for a variable whose value is no truth value.
pub open spec fn not_a_bool(name: Seq<char>) -> Seq<char> {
    "env var "@ + name + " must be `true` or `false`"@
}

/// The truth value that a text stands for; white space around it and ASCII case are ignored.
pub open spec fn bool_named(value: Seq<char>) -> Option<bool> {
    let word = text::lowered(text::trimmed(value));
    if word == "true"@ || word == "1"@ || word == "yes"@ {
        Some(true)
    } else if word == "false"@ || word == "0"@ || word == "no"@ {
        Some(false)
    } else {
        None
    }
}

/// Whether `error` is the configuration error with a given text.
pub open spec fn is_config(error: AppError, detail: Seq<char>) -> bool {
    error is Config && error.detail() == detail
}

fn describe(name: &str, problem: &str) -> (error: AppError)
    ensures
        is_config(error, "env var "@ + name@ + problem@),
{
    let mut detail = text::concat("env var ", name);
    detail.append(problem);
    AppError::Config(detail)
}

/// The value of a variable, where it is set. Fails where the value is not Unicode.
pub fn get_optional(name: &str, value: &EnvValue) -> (out: Result<Option<String>>)
    ensures
        match *value {
            EnvValue::Missing => out matches Ok(None),
            EnvValue::Text(content) => out matches Ok(Some(found)) && found@ == content@,
            EnvValue::NotUnicode => out matches Err(error) && is_config(error, unreadable(name@)),
        },
{
    match value {
        EnvValue::Missing => Ok(None),
        EnvValue::Text(content) => Ok(Some(content.clone())),
        EnvValue::NotUnicode => Err(describe(name, " contains invalid unicode")),
    }
}

/// The number that a variable holds, where it is set.
pub fn parse_optional_u64(name: &str, value: &EnvValue) -> (out: Result<Option<u64>>)
    ensures
        match *value {
            EnvValue::Missing => out matches Ok(None),
            EnvValue::NotUnicode => out matches Err(error) && is_config(error, unreadable(name@)),
            EnvValue::Text(content) => match number::parsed_within(
                content@,
                false,
                0,
                u64::MAX as int,
            ) {
                Some(count) => out matches Ok(Some(found)) && found == count,
                None => out matches Err(error) && is_config(error, not_a_number(name@)),
            },
        },
{
    match value {
        EnvValue::Missing => Ok(None),
        EnvValue::NotUnicode => Err(describe(name, " contains invalid unicode")),
        EnvValue::Text(content) => match number::parse_u64(content.as_str()) {
            Some(count) => Ok(Some(count)),
            None => Err(describe(name, " is invalid")),
        },
    }
}

/// The number that a variable holds, where it is set.
pub fn parse_optional_u32(name: &str, value: &EnvValue) -> (out: Result<Option<u32>>)
    ensures
        match *value {
            EnvValue::Missing => out matches Ok(None),
            EnvValue::NotUnicode => out matches Err(error) && is_config(error, unreadable(name@)),
            EnvValue::Text(content) => match number::parsed_within(
                content@,
                false,
                0,
                u32::MAX as int,
            ) {
                Some(count) => out matches Ok(Some(found)) && found == count,
                None => out matches Err(error) && is_config(error, not_a_number(name@)),
            },
        },
{
    match value {
        EnvValue::Missing => Ok(None),
        EnvValue::NotUnicode => Err(describe(name, " contains invalid unicode")),
        EnvValue::Text(content) => match number::parse_u32(content.as_str()) {
            Some(count) => Ok(Some(count)),
            None => Err(describe(name, " is invalid")),
        },
    }
}

/// The number that a variable holds, where it is set.
pub fn parse_optional_i32(name: &str, value: &EnvValue) -> (out: Result<Option<i32>>)
    ensures
        match *value {
            EnvValue::Missing => out matches Ok(None),
            EnvValue::NotUnicode => out matches Err(error) && is_config(error, unreadable(name@)),
            EnvValue::Text(content) => match number::parsed_within(
                content@,
                true,
                i32::MIN as int,
                i32::MAX as int,
            ) {
                Some(count) => out matches Ok(Some(found)) && found == count,
                None => out matches Err(error) && is_config(error, not_a_number(name@)),
            },
        },
{
    match value {
        EnvValue::Missing => Ok(None),
        EnvValue::NotUnicode => Err(describe(name, " contains invalid unicode")),
        EnvValue::Text(content) => match number::parse_i32(content.as_str()) {
            Some(count) => Ok(Some(count)),
            None => Err(describe(name, " is invalid")),
        },
    }
}

/// The truth value that a text of a variable stands for.
pub fn parse_bool(name: &str, value: &str) -> (out: Result<bool>)
    ensures
        match bool_named(value@) {
            Some(truth) => out matches Ok(found) && found == truth,
            None => out matches Err(error) && is_config(error, not_a_bool(name@)),
        },
{
    let trimmed = text::trim(value);
    let word = text::lower(trimmed.as_str());
    let word = word.as_str();
    if text::same_text(word, "true") || text::same_text(word, "1") || text::same_text(word, "yes") {
        Ok(true)
    } else if text::same_text(word, "false") || text::same_text(word, "0") || text::same_text(
        word,
        "no",
    ) {
        Ok(false)
    } else {
        Err(describe(name, " must be `true` or `false`"))
    }
}

/// The truth value that a variable holds, where it is set.
pub fn parse_optional_bool(name: &str, value: &EnvValue) -> (out: Result<Option<bool>>)
    ensures
        match *value {
            EnvValue::Missing => out matches Ok(None),
            EnvValue::NotUnicode => out matches Err(error) && is_config(error, unreadable(name@)),
            EnvValue::Text(content) => match bool_named(content@) {
                Some(truth) => out matches Ok(Some(found)) && found == truth,
                None => out matches Err(error) && is_config(error, not_a_bool(name@)),
            },
        },
{
    match value {
        EnvValue::Missing => Ok(None),
        EnvValue::NotUnicode => Err(describe(name, " contains invalid unicode")),
        EnvValue::Text(content) => match parse_bool(name, content.as_str()) {
            Ok(truth) => Ok(Some(truth)),
            Err(error) => Err(error),
        },
    }
}

/// Truth values are read whatever white space stands around them, and no word means both.
pub proof fn truth_values_are_read_loosely(value: Seq<char>)
    ensures
        bool_named(text::trimmed(value)) == bool_named(value),
        bool_named("true"@) == Some(true),
        bool_named("1"@) == Some(true),
        bool_named("yes"@) == Some(true),
        bool_named("false"@) == Some(false),
        bool_named("0"@) == Some(false),
        bool_named("no"@) == Some(false),
{
    text::trimming_twice_is_trimming_once(value);
    reveal_strlit("true");
    reveal_strlit("1");
    reveal_strlit("yes");
    reveal_strlit("false");
    reveal_strlit("0");
    reveal_strlit("no");
    text::bare_edges_stay("true"@);
    text::bare_edges_stay("1"@);
    text::bare_edges_stay("yes"@);
    text::bare_edges_stay("false"@);
    text::bare_edges_stay("0"@);
    text::bare_edges_stay("no"@);
    assert(text::lowered("true"@) =~= "true"@);
    assert(text::lowered("1"@) =~= "1"@);
    assert(text::lowered("yes"@) =~= "yes"@);
    assert(text::lowered("false"@) =~= "false"@);
    assert(text::lowered("0"@) =~= "0"@);
    assert(text::lowered("no"@) =~= "no"@);
    assert("true"@.len() == 4 && "1"@.len() == 1 && "yes"@.len() == 3);
    assert("false"@.len() == 5 && "0"@.len() == 1 && "no"@.len() == 2);
    assert("1"@[0] == '1' && "0"@[0] == '0');
}

} // verus!
