//! The greeting and the simulated content: a quote that changes with the day
//! and a weather line that changes with the hour.

use vstd::prelude::*;
use vstd::string::*;
use vstd::bytes::{spec_u64_to_le_bytes, u64_to_le_bytes};
use vstd::std_specs::hash::DefaultHasherAdditionalSpecFns;
use std::collections::hash_map::DefaultHasher;
use std::hash::Hasher;
use crate::host::unix_seconds;
use crate::text::{join, slice_texts, text_option};

verus! {

/// The greeting for `name`.
pub open spec fn greeting(name: Seq<char>) -> Seq<char> {
    "Hello, "@ + name + "! You've got a beautiful day ahead."@
}

/// Greets `name`.
pub fn greet(name: &str) -> (text: String)
    ensures
        text@ == greeting(name@),
{
    let mut text: String = join("Hello, ", name);
    text.append("! You've got a beautiful day ahead.");
    text
}

/// The quotes, in order.
pub open spec fn quotes() -> Seq<Seq<char>> {
    seq![
        "The future belongs to those who believe in the beauty of their dreams."@,
        "It is during our darkest moments that we must focus to see the light."@,
        "Success is not final, failure is not fatal: it is the courage to continue that counts."@,
        "The way to get started is to quit talking and begin doing."@,
        "Don't let yesterday take up too much of today."@,
        "You learn more from failure than from success."@,
        "If you are working on something exciting that you really care about, you don't have to be pushed."@,
        "Experience is the name everyone gives to their mistakes."@,
        "Optimism is the faith that leads to achievement."@,
        "The only impossible journey is the one you never begin."@,
    ]
}

/// The weather conditions, in order.
pub open spec fn conditions() -> Seq<Seq<char>> {
    seq![
        "☀️ Sunny"@,
        "🌤️ Partly Cloudy"@,
        "⛅ Cloudy"@,
        "🌧️ Light Rain"@,
        "❄️ Snow"@,
    ]
}

/// The temperatures, in order.
pub open spec fn temperatures() -> Seq<Seq<char>> {
    seq![
        "18°C"@,
        "22°C"@,
        "25°C"@,
        "19°C"@,
        "15°C"@,
    ]
}

/// The day that a time, in seconds since the Unix epoch, falls in.
pub open spec fn day_bucket(unix_secs: u64) -> u64 {
    unix_secs / 86400
}

/// The hour that a time, in seconds since the Unix epoch, falls in.
pub open spec fn hour_bucket(unix_secs: u64) -> u64 {
    unix_secs / 3600
}

/// The hash of a bucket: what the standard library's default hasher gives
/// after one write of the bucket's eight bytes, lowest first.
pub open spec fn bucket_hash(bucket: u64) -> u64 {
    DefaultHasher::spec_finish(seq![spec_u64_to_le_bytes(bucket)])
}

/// The position of the day's quote.
pub open spec fn quote_index(unix_secs: u64) -> int {
    (bucket_hash(day_bucket(unix_secs)) % 10) as int
}

/// The quote of the day that `unix_secs` falls in.
pub open spec fn quote_of(unix_secs: u64) -> Seq<char> {
    quotes()[quote_index(unix_secs)]
}

/// The position of the hour's weather condition.
pub open spec fn condition_index(unix_secs: u64) -> int {
    (bucket_hash(hour_bucket(unix_secs)) % 5) as int
}

/// The position of the hour's temperature: it is drawn from the hash of the
/// hour after.
pub open spec fn temperature_index(unix_secs: u64) -> int {
    (bucket_hash((hour_bucket(unix_secs) + 1) as u64) % 5) as int
}

/// The weather line for two hashes: the condition, a space, the temperature.
pub open spec fn weather_line(condition_hash: u64, temperature_hash: u64) -> Seq<char> {
    conditions()[(condition_hash % 5) as int] + " "@ + temperatures()[(temperature_hash % 5) as int]
}

/// The weather line of the hour that `unix_secs` falls in.
pub open spec fn weather_of(unix_secs: u64) -> Seq<char> {
    conditions()[condition_index(unix_secs)] + " "@ + temperatures()[temperature_index(
        unix_secs,
    )]
}

/// Hashes a bucket with a fresh default hasher.
pub fn hash_bucket(bucket: u64) -> (hash: u64)
    ensures
        hash == bucket_hash(bucket),
{
    let bytes: Vec<u8> = u64_to_le_bytes(bucket);
    let mut hasher = DefaultHasher::new();
    hasher.write(bytes.as_slice());
    assert(hasher@ =~= seq![spec_u64_to_le_bytes(bucket)]);
    hasher.finish()
}

/// The quote that a hash selects.
pub fn pick_quote(hash: u64) -> (quote: String)
    ensures
        quote@ == quotes()[(hash % 10) as int],
{
    let list: Vec<&'static str> = vec![
        "The future belongs to those who believe in the beauty of their dreams.",
        "It is during our darkest moments that we must focus to see the light.",
        "Success is not final, failure is not fatal: it is the courage to continue that counts.",
        "The way to get started is to quit talking and begin doing.",
        "Don't let yesterday take up too much of today.",
        "You learn more from failure than from success.",
        "If you are working on something exciting that you really care about, you don't have to be pushed.",
        "Experience is the name everyone gives to their mistakes.",
        "Optimism is the faith that leads to achievement.",
        "The only impossible journey is the one you never begin.",
    ];
    assert(slice_texts(list@) =~= quotes());
    let index: usize = (hash % 10) as usize;
    assert(slice_texts(list@)[index as int] == list@[index as int]@);
    list[index].to_owned()
}

/// The weather line that two hashes select.
pub fn pick_weather(condition_hash: u64, temperature_hash: u64) -> (line: String)
    ensures
        line@ == weather_line(condition_hash, temperature_hash),
{
    let conditions: Vec<&'static str> = vec![
        "☀️ Sunny",
        "🌤️ Partly Cloudy",
        "⛅ Cloudy",
        "🌧️ Light Rain",
        "❄️ Snow",
    ];
    let temperatures: Vec<&'static str> = vec![
        "18°C",
        "22°C",
        "25°C",
        "19°C",
        "15°C",
    ];
    assert(slice_texts(conditions@) =~= self::conditions());
    assert(slice_texts(temperatures@) =~= self::temperatures());
    let c: usize = (condition_hash % 5) as usize;
    let t: usize = (temperature_hash % 5) as usize;
    assert(slice_texts(conditions@)[c as int] == conditions@[c as int]@);
    assert(slice_texts(temperatures@)[t as int] == temperatures@[t as int]@);
    let mut line: String = join(conditions[c], " ");
    line.append(temperatures[t]);
    line
}

/// The quote of the day for the time `unix_secs`, in seconds since the Unix
/// epoch. It is always one of the listed quotes.
pub fn quote_at(unix_secs: u64) -> (quote: String)
    ensures
        quote@ == quote_of(unix_secs),
        0 <= quote_index(unix_secs) < quotes().len(),
{
    pick_quote(hash_bucket(unix_secs / 86400))
}

/// The weather line for the time `unix_secs`, in seconds since the Unix
/// epoch.
pub fn weather_at(unix_secs: u64) -> (line: String)
    ensures
        line@ == weather_of(unix_secs),
        0 <= condition_index(unix_secs) < conditions().len(),
        0 <= temperature_index(unix_secs) < temperatures().len(),
{
    let hour: u64 = unix_secs / 3600;
    let condition_hash: u64 = hash_bucket(hour);
    let temperature_hash: u64 = hash_bucket(hour + 1);
    pick_weather(condition_hash, temperature_hash)
}

/// The quote for a reading of the clock: the quote of its day, and none
/// where the clock gave no time.
pub open spec fn quote_on(clock: Option<u64>) -> Option<Seq<char>> {
    match clock {
        Some(unix_secs) => Some(quote_of(unix_secs)),
        None => None,
    }
}

/// The weather line for a reading of the clock: the line of its hour, and
/// none where the clock gave no time.
pub open spec fn weather_on(clock: Option<u64>) -> Option<Seq<char>> {
    match clock {
        Some(unix_secs) => Some(weather_of(unix_secs)),
        None => None,
    }
}

/// The quote for a reading of the clock, in seconds since the Unix epoch:
/// `quote_at` of the time read, and `None` exactly when no time was read.
pub fn quote_for_clock(clock: Option<u64>) -> (quote: Option<String>)
    ensures
        text_option(quote) == quote_on(clock),
{
    match clock {
        Some(unix_secs) => Some(quote_at(unix_secs)),
        None => None,
    }
}

/// The weather line for a reading of the clock, in seconds since the Unix
/// epoch: `weather_at` of the time read, and `None` exactly when no time was
/// read.
pub fn weather_for_clock(clock: Option<u64>) -> (line: Option<String>)
    ensures
        text_option(line) == weather_on(clock),
{
    match clock {
        Some(unix_secs) => Some(weather_at(unix_secs)),
        None => None,
    }
}

/// The quote of the current day: `quote_for_clock` of what the clock says.
/// `None` when the clock stands before the Unix epoch.
pub fn get_random_quote() -> (quote: Option<String>)
    ensures
        match quote {
            Some(q) => exists|unix_secs: u64| q@ == #[trigger] quote_of(unix_secs),
            None => true,
        },
{
    let clock: Option<u64> = unix_seconds();
    let quote: Option<String> = quote_for_clock(clock);
    proof {
        if let Some(unix_secs) = clock {
            assert(quote.unwrap()@ == quote_of(unix_secs));
        }
    }
    quote
}

/// The weather line of the current hour: `weather_for_clock` of what the
/// clock says. `None` when the clock stands before the Unix epoch.
pub fn get_weather_info() -> (line: Option<String>)
    ensures
        match line {
            Some(l) => exists|unix_secs: u64| l@ == #[trigger] weather_of(unix_secs),
            None => true,
        },
{
    let clock: Option<u64> = unix_seconds();
    let line: Option<String> = weather_for_clock(clock);
    proof {
        if let Some(unix_secs) = clock {
            assert(line.unwrap()@ == weather_of(unix_secs));
        }
    }
    line
}

/// Two times in the same day have the same quote, and it is one of the
/// listed quotes.
pub proof fn lemma_quote_stable_within_day(a: u64, b: u64)
    requires
        day_bucket(a) == day_bucket(b),
    ensures
        quote_of(a) == quote_of(b),
        exists|i: int| 0 <= i < 10 && quote_of(a) == #[trigger] quotes()[i],
{
    assert(quote_of(a) == quotes()[quote_index(a)]);
}

/// Both weather positions lie in the lists, the temperature is drawn from
/// the hour after the condition's, and two times in the same hour have the
/// same weather line.
pub proof fn lemma_weather_stable_within_hour(a: u64, b: u64)
    requires
        hour_bucket(a) == hour_bucket(b),
    ensures
        0 <= condition_index(a) < 5,
        0 <= temperature_index(a) < 5,
        condition_index(a) == bucket_hash(hour_bucket(a)) % 5,
        temperature_index(a) == bucket_hash((hour_bucket(a) + 1) as u64) % 5,
        weather_of(a) == weather_of(b),
{
}

} // verus!
