//! Weather reports and weather memos: what the weather tools compute and
//! show. Temperatures are kept as the text in which they are shown.

use vstd::prelude::*;
use crate::clock::{local_time_text, TIMESTAMP_FORMAT};
use crate::text::{contains_text, decimal, decimal_text, text_contains};

verus! {

/// The current weather of a city.
#[derive(Debug)]
pub struct WeatherInfo {
    pub city: String,
    pub weather: String,
    pub temperature: String,
    pub humidity: u32,
}

/// The description of a report that names no weather.
pub open spec fn unknown_weather() -> Seq<char> {
    "不明"@
}

impl WeatherInfo {
    /// The report of a city: the first of the service's weather descriptions,
    /// or a word for "unknown" when it gave none.
    pub fn from_report(
        city: String,
        descriptions: Vec<String>,
        temperature: String,
        humidity: u32,
    ) -> (r: WeatherInfo)
        ensures
            r.city@ == city@,
            r.weather@ == if descriptions@.len() > 0 {
                descriptions@[0]@
            } else {
                unknown_weather()
            },
            r.temperature@ == temperature@,
            r.humidity == humidity,
    {
        let weather = if descriptions.len() > 0 {
            descriptions[0].clone()
        } else {
            String::from_str("不明")
        };
        WeatherInfo { city, weather, temperature, humidity }
    }
}

/// The text that shows a report.
pub open spec fn weather_text(i: WeatherInfo) -> Seq<char> {
    "🌤️ "@ + i.city@ + " の天気: "@ + i.weather@ + ", 気温 "@ + i.temperature@ + "℃, 湿度 "@
        + decimal(i.humidity as nat) + "%"@
}

/// The text that shows a report.
pub fn format_weather_info(info: &WeatherInfo) -> (r: String)
    ensures
        r@ == weather_text(*info),
{
    let mut s = String::from_str("🌤️ ");
    s.append(info.city.as_str());
    s.append(" の天気: ");
    s.append(info.weather.as_str());
    s.append(", 気温 ");
    s.append(info.temperature.as_str());
    s.append("℃, 湿度 ");
    let h = decimal_text(info.humidity as usize);
    s.append(h.as_str());
    s.append("%");
    s
}

/// A saved weather note.
#[derive(Debug)]
pub struct SavedMemo {
    pub timestamp: String,
    pub city: String,
    pub weather: String,
    pub temperature: String,
    pub note: String,
}

/// What a saved note holds.
pub ghost struct SavedMemoView {
    pub timestamp: Seq<char>,
    pub city: Seq<char>,
    pub weather: Seq<char>,
    pub temperature: Seq<char>,
    pub note: Seq<char>,
}

impl View for SavedMemo {
    type V = SavedMemoView;

    open spec fn view(&self) -> SavedMemoView {
        SavedMemoView {
            timestamp: self.timestamp@,
            city: self.city@,
            weather: self.weather@,
            temperature: self.temperature@,
            note: self.note@,
        }
    }
}

/// The arguments of the tool that saves a note.
#[derive(Debug)]
pub struct SaveMemoArgs {
    pub city: String,
    pub weather: String,
    pub temperature: String,
    pub note: String,
}

/// The arguments of the tool that fetches the weather.
#[derive(Debug)]
pub struct FetchWeatherArgs {
    pub city: String,
}

/// The arguments of the tool that searches notes by city.
#[derive(Debug)]
pub struct SearchMemosArgs {
    pub city: String,
}

impl SavedMemo {
    /// The note that the save tool stores for its arguments, stamped with `timestamp`.
    pub fn from_args(args: SaveMemoArgs, timestamp: String) -> (r: SavedMemo)
        ensures
            r@ == (SavedMemoView {
                timestamp: timestamp@,
                city: args.city@,
                weather: args.weather@,
                temperature: args.temperature@,
                note: args.note@,
            }),
    {
        SavedMemo {
            timestamp,
            city: args.city,
            weather: args.weather,
            temperature: args.temperature,
            note: args.note,
        }
    }
}

impl SavedMemo {
    /// The note that the save tool stores for its arguments, stamped with
    /// the local time now.
    pub fn from_args_now(args: SaveMemoArgs) -> (r: SavedMemo)
        ensures
            r.city@ == args.city@,
            r.weather@ == args.weather@,
            r.temperature@ == args.temperature@,
            r.note@ == args.note@,
    {
        let timestamp = local_time_text(TIMESTAMP_FORMAT);
        SavedMemo::from_args(args, timestamp)
    }
}

/// The confirmation that a note was saved.
pub open spec fn saved_text(m: SavedMemoView) -> Seq<char> {
    "✅ メモを保存しました: "@ + m.city + " | "@ + m.weather + " "@ + m.temperature + "℃"@
}

/// The confirmation that a note was saved.
pub fn memo_saved_message(memo: &SavedMemo) -> (r: String)
    ensures
        r@ == saved_text(memo@),
{
    let mut s = String::from_str("✅ メモを保存しました: ");
    s.append(memo.city.as_str());
    s.append(" | ");
    s.append(memo.weather.as_str());
    s.append(" ");
    s.append(memo.temperature.as_str());
    s.append("℃");
    s
}

/// The notes of `ms` whose city contains `city`, in order.
pub open spec fn matching_city(ms: Seq<SavedMemoView>, city: Seq<char>) -> Seq<SavedMemoView>
    decreases ms.len(),
{
    if ms.len() == 0 {
        Seq::empty()
    } else if contains_text(ms.last().city, city) {
        matching_city(ms.drop_last(), city).push(ms.last())
    } else {
        matching_city(ms.drop_last(), city)
    }
}

/// All saved notes, newest first.
#[derive(Debug)]
pub struct MemoStorage {
    pub memos: Vec<SavedMemo>,
}

impl View for MemoStorage {
    type V = Seq<SavedMemoView>;

    open spec fn view(&self) -> Seq<SavedMemoView> {
        self.memos@.map_values(|m: SavedMemo| m@)
    }
}

impl MemoStorage {
    /// An empty store.
    pub fn new() -> (r: MemoStorage)
        ensures
            r@ == Seq::<SavedMemoView>::empty(),
    {
        let r = MemoStorage { memos: Vec::new() };
        assert(r@ =~= Seq::<SavedMemoView>::empty());
        r
    }

    /// Puts a note in front of the others.
    pub fn add_memo(&mut self, memo: SavedMemo)
        ensures
            final(self)@ == seq![memo@] + old(self)@,
    {
        self.memos.insert(0, memo);
        assert(final(self)@ =~= seq![memo@] + old(self)@);
    }

    /// The notes whose city contains `city`, in order.
    pub fn search_by_city(&self, city: &str) -> (r: Vec<&SavedMemo>)
        ensures
            r@.map_values(|m: &SavedMemo| m@) == matching_city(self@, city@),
    {
        let mut r: Vec<&SavedMemo> = Vec::new();
        let mut i: usize = 0;
        while i < self.memos.len()
            invariant
                i <= self.memos@.len(),
                r@.map_values(|m: &SavedMemo| m@) == matching_city(self@.take(i as int), city@),
            decreases self.memos@.len() - i,
        {
            assert(self@.take(i as int + 1).drop_last() =~= self@.take(i as int));
            let m = &self.memos[i];
            if text_contains(m.city.as_str(), city) {
                r.push(m);
            }
            assert(r@.map_values(|m: &SavedMemo| m@) =~= matching_city(
                self@.take(i as int + 1),
                city@,
            ));
            i += 1;
        }
        assert(self@.take(i as int) =~= self@);
        r
    }
}

/// The line of the full listing for the note at position `k` (from 1).
pub open spec fn listed_line(k: nat, m: SavedMemoView) -> Seq<char> {
    decimal(k) + ". "@ + m.timestamp + " | "@ + m.city + " | "@ + m.weather + " "@ + m.temperature
        + "℃ | "@ + m.note + "\n"@
}

/// The lines of the full listing of `ms`.
pub open spec fn listed_lines(ms: Seq<SavedMemoView>) -> Seq<char>
    decreases ms.len(),
{
    if ms.len() == 0 {
        Seq::empty()
    } else {
        listed_lines(ms.drop_last()) + listed_line(ms.len(), ms.last())
    }
}

/// The full listing of the notes.
pub open spec fn all_memos_text(ms: Seq<SavedMemoView>) -> Seq<char> {
    if ms.len() == 0 {
        "📭 保存されているメモはありません"@
    } else {
        "📋 保存済みメモ一覧:\n"@ + listed_lines(ms)
    }
}

/// The listing of every note, numbered from 1, or a note that there are none.
pub fn format_all_memos(storage: &MemoStorage) -> (r: String)
    ensures
        r@ == all_memos_text(storage@),
{
    let n = storage.memos.len();
    if n == 0 {
        return String::from_str("📭 保存されているメモはありません");
    }
    let ghost ms = storage@;
    let mut out = String::from_str("📋 保存済みメモ一覧:\n");
    let ghost head = out@;
    let mut i: usize = 0;
    while i < n
        invariant
            n == ms.len(),
            ms == storage@,
            i <= n,
            out@ == head + listed_lines(ms.take(i as int)),
        decreases n - i,
    {
        assert(ms.take(i as int + 1).drop_last() =~= ms.take(i as int));
        let m = &storage.memos[i];
        let k = decimal_text(i + 1);
        out.append(k.as_str());
        out.append(". ");
        out.append(m.timestamp.as_str());
        out.append(" | ");
        out.append(m.city.as_str());
        out.append(" | ");
        out.append(m.weather.as_str());
        out.append(" ");
        out.append(m.temperature.as_str());
        out.append("℃ | ");
        out.append(m.note.as_str());
        out.append("\n");
        assert(out@ =~= head + listed_lines(ms.take(i as int + 1)));
        i += 1;
    }
    assert(ms.take(n as int) =~= ms);
    out
}

/// The line of a search result for the note at position `k` (from 1).
pub open spec fn found_line(k: nat, m: SavedMemoView) -> Seq<char> {
    decimal(k) + ". "@ + m.timestamp + " | "@ + m.weather + " "@ + m.temperature + "℃ | "@ + m.note
        + "\n"@
}

/// The lines of a search result.
pub open spec fn found_lines(ms: Seq<SavedMemoView>) -> Seq<char>
    decreases ms.len(),
{
    if ms.len() == 0 {
        Seq::empty()
    } else {
        found_lines(ms.drop_last()) + found_line(ms.len(), ms.last())
    }
}

/// The result of a search of the notes by city.
pub open spec fn city_memos_text(ms: Seq<SavedMemoView>, city: Seq<char>) -> Seq<char> {
    let found = matching_city(ms, city);
    if found.len() == 0 {
        "🔍 「"@ + city + "」のメモは見つかりませんでした"@
    } else {
        "🔍 「"@ + city + "」のメモ:\n"@ + found_lines(found)
    }
}

/// The notes whose city contains `city`, numbered from 1, or a note that
/// there are none.
pub fn format_memos_by_city(storage: &MemoStorage, city: &str) -> (r: String)
    ensures
        r@ == city_memos_text(storage@, city@),
{
    let results = storage.search_by_city(city);
    let ghost found = matching_city(storage@, city@);
    let n = results.len();
    if n == 0 {
        let mut s = String::from_str("🔍 「");
        s.append(city);
        s.append("」のメモは見つかりませんでした");
        return s;
    }
    let mut out = String::from_str("🔍 「");
    out.append(city);
    out.append("」のメモ:\n");
    let ghost head = out@;
    let mut i: usize = 0;
    while i < n
        invariant
            n == found.len(),
            results@.map_values(|m: &SavedMemo| m@) == found,
            i <= n,
            out@ == head + found_lines(found.take(i as int)),
        decreases n - i,
    {
        assert(found.take(i as int + 1).drop_last() =~= found.take(i as int));
        let m = results[i];
        assert(m@ == found[i as int]);
        let k = decimal_text(i + 1);
        out.append(k.as_str());
        out.append(". ");
        out.append(m.timestamp.as_str());
        out.append(" | ");
        out.append(m.weather.as_str());
        out.append(" ");
        out.append(m.temperature.as_str());
        out.append("℃ | ");
        out.append(m.note.as_str());
        out.append("\n");
        assert(out@ =~= head + found_lines(found.take(i as int + 1)));
        i += 1;
    }
    assert(found.take(n as int) =~= found);
    out
}

} // verus!
