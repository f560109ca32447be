use shell_backend::content::{
    get_random_quote, get_weather_info, greet, hash_bucket, pick_quote, pick_weather, quote_at,
    quote_for_clock, weather_at, weather_for_clock,
};
use shell_backend::info::get_system_info;
use std::collections::hash_map::DefaultHasher;
use std::hash::{Hash, Hasher};

const QUOTES: [&str; 10] = [
    "The future belongs to those who believe in the beauty of their dreams.",
    "It is during our darkest moments that we must focus to see the light.",
    "Success is not final, failure is not fatal: it is the courage to continue that counts.",
    "The way to get started is to quit talking and begin doing.",
    "Don't let yesterday take up too much of today.",
    "You learn more from failure than from success.",
    "If you are working on something exciting that you really care about, you don't have to be pushed.",
    "Experience is the name everyone gives to their mistakes.",
    "Optimism is the faith that leads to achievement.",
    "The only impossible journey is the one you never begin.",
];

const CONDITIONS: [&str; 5] = ["☀️ Sunny", "🌤️ Partly Cloudy", "⛅ Cloudy", "🌧️ Light Rain", "❄️ Snow"];

const TEMPERATURES: [&str; 5] = ["18°C", "22°C", "25°C", "19°C", "15°C"];

fn std_hash(bucket: u64) -> u64 {
    let mut hasher = DefaultHasher::new();
    bucket.hash(&mut hasher);
    hasher.finish()
}

#[test]
fn greet_formats_the_name() {
    assert_eq!(greet("Ada"), "Hello, Ada! You've got a beautiful day ahead.");
    assert_eq!(greet(""), "Hello, ! You've got a beautiful day ahead.");
    assert_eq!(greet("Zoë 🌍"), "Hello, Zoë 🌍! You've got a beautiful day ahead.");
}

#[test]
fn system_info_holds_the_three_texts() {
    let info = get_system_info("linux", "0.1.0", "x86_64");
    assert_eq!(info.platform, "linux");
    assert_eq!(info.version, "0.1.0");
    assert_eq!(info.arch, "x86_64");
}

#[test]
fn hash_bucket_feeds_eight_low_first_bytes() {
    for bucket in [0u64, 1, 19_000, 20_753, 0x0102_0304_0506_0708, u64::MAX] {
        let mut hasher = DefaultHasher::new();
        hasher.write(&bucket.to_le_bytes());
        assert_eq!(hash_bucket(bucket), hasher.finish());
    }
    assert_ne!(hash_bucket(1), hash_bucket(2));
    assert_ne!(hash_bucket(7), 7);
}

#[test]
fn hash_bucket_agrees_with_hashing_the_integer() {
    if 1u16.to_ne_bytes() == 1u16.to_le_bytes() {
        for bucket in [0u64, 1, 19_000, 20_753, u64::MAX] {
            assert_eq!(hash_bucket(bucket), std_hash(bucket));
        }
    }
}

#[test]
fn pick_quote_takes_the_hash_modulo_ten() {
    for (i, q) in QUOTES.iter().enumerate() {
        assert_eq!(pick_quote(i as u64), *q);
        assert_eq!(pick_quote(i as u64 + 10), *q);
        assert_eq!(pick_quote(i as u64 + 1_000_000_000_000_000_000), *q);
    }
    assert_eq!(pick_quote(u64::MAX), QUOTES[5]);
}

#[test]
fn pick_weather_takes_each_hash_modulo_five() {
    for c in 0..5u64 {
        for t in 0..5u64 {
            let expected = format!("{} {}", CONDITIONS[c as usize], TEMPERATURES[t as usize]);
            assert_eq!(pick_weather(c, t), expected);
            assert_eq!(pick_weather(c + 5, t + 15), expected);
        }
    }
    assert_eq!(pick_weather(0, 0), "☀️ Sunny 18°C");
    assert_eq!(pick_weather(u64::MAX, 4), "☀️ Sunny 15°C");
    assert_eq!(pick_weather(9, 7), "❄️ Snow 25°C");
}

#[test]
fn quote_is_stable_within_a_day() {
    let day_start: u64 = 20_000 * 86_400;
    let first = quote_at(day_start);
    assert_eq!(quote_at(day_start + 1), first);
    assert_eq!(quote_at(day_start + 43_200), first);
    assert_eq!(quote_at(day_start + 86_399), first);
    assert_eq!(first, pick_quote(hash_bucket(20_000)));
    assert_eq!(quote_at(day_start + 86_400), pick_quote(hash_bucket(20_001)));
}

#[test]
fn quote_is_always_one_of_the_ten() {
    for day in 0..400u64 {
        let q = quote_at(day * 86_400 + 17);
        assert!(QUOTES.contains(&q.as_str()));
    }
    assert!(QUOTES.contains(&quote_at(0).as_str()));
    assert!(QUOTES.contains(&quote_at(u64::MAX).as_str()));
}

#[test]
fn quotes_change_over_the_days() {
    let first = quote_at(0);
    assert!((1..400u64).any(|day| quote_at(day * 86_400) != first));
}

#[test]
fn weather_pairs_the_hour_with_the_hour_after() {
    for hour in [0u64, 1, 2, 480_000, 480_001] {
        let expected = pick_weather(hash_bucket(hour), hash_bucket(hour + 1));
        assert_eq!(weather_at(hour * 3_600), expected);
        assert_eq!(weather_at(hour * 3_600 + 3_599), expected);
    }
}

#[test]
fn weather_at_the_last_second() {
    let hour = u64::MAX / 3_600;
    assert_eq!(weather_at(u64::MAX), pick_weather(hash_bucket(hour), hash_bucket(hour + 1)));
}

#[test]
fn weather_line_is_condition_space_temperature() {
    for hour in 0..200u64 {
        let line = weather_at(hour * 3_600);
        let found = CONDITIONS.iter().any(|c| {
            TEMPERATURES.iter().any(|t| line == format!("{} {}", c, t))
        });
        assert!(found);
    }
}

#[test]
fn current_quote_and_weather_come_from_the_lists() {
    let quote = get_random_quote();
    assert!(matches!(&quote, Some(q) if QUOTES.contains(&q.as_str())));
    let line = get_weather_info();
    assert!(matches!(&line, Some(l) if CONDITIONS.iter().any(|c| l.starts_with(c))));
}

#[test]
fn a_clock_without_a_time_gives_no_content() {
    assert_eq!(quote_for_clock(None), None);
    assert_eq!(weather_for_clock(None), None);
}

#[test]
fn a_clock_reading_gives_the_content_of_its_time() {
    for secs in [0u64, 1, 86_399, 86_400, 1_793_000_000, u64::MAX] {
        assert_eq!(quote_for_clock(Some(secs)), Some(quote_at(secs)));
        assert_eq!(weather_for_clock(Some(secs)), Some(weather_at(secs)));
    }
    assert_eq!(quote_for_clock(Some(20_000 * 86_400)), Some(pick_quote(hash_bucket(20_000))));
    assert_eq!(
        weather_for_clock(Some(480_000 * 3_600)),
        Some(pick_weather(hash_bucket(480_000), hash_bucket(480_001)))
    );
}
