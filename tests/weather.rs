use chat_tools::weather::{
    format_all_memos, format_memos_by_city, format_weather_info, memo_saved_message, MemoStorage,
    SaveMemoArgs, SavedMemo, WeatherInfo,
};

fn note(city: &str, weather: &str, temperature: &str, text: &str, stamp: &str) -> SavedMemo {
    SavedMemo::from_args(
        SaveMemoArgs {
            city: city.to_string(),
            weather: weather.to_string(),
            temperature: temperature.to_string(),
            note: text.to_string(),
        },
        stamp.to_string(),
    )
}

#[test]
fn weather_info_takes_first_description() {
    let info = WeatherInfo::from_report(
        "Tokyo".to_string(),
        vec!["晴れ".to_string(), "曇り".to_string()],
        "21.5".to_string(),
        40,
    );
    assert_eq!(info.weather, "晴れ");
    assert_eq!(format_weather_info(&info), "🌤️ Tokyo の天気: 晴れ, 気温 21.5℃, 湿度 40%");
}

#[test]
fn weather_info_without_description_is_unknown() {
    let info = WeatherInfo::from_report("Osaka".to_string(), vec![], "3".to_string(), 100);
    assert_eq!(info.weather, "不明");
    assert_eq!(format_weather_info(&info), "🌤️ Osaka の天気: 不明, 気温 3℃, 湿度 100%");
}

#[test]
fn new_notes_come_first() {
    let mut storage = MemoStorage::new();
    storage.add_memo(note("東京", "晴れ", "20", "a", "t1"));
    storage.add_memo(note("大阪", "雨", "15", "b", "t2"));
    assert_eq!(storage.memos.len(), 2);
    assert_eq!(storage.memos[0].city, "大阪");
    assert_eq!(storage.memos[1].city, "東京");
}

#[test]
fn full_listing_numbers_notes() {
    let mut storage = MemoStorage::new();
    assert_eq!(format_all_memos(&storage), "📭 保存されているメモはありません");
    storage.add_memo(note("東京", "晴れ", "20", "散歩", "t1"));
    storage.add_memo(note("大阪", "雨", "15.5", "傘", "t2"));
    assert_eq!(
        format_all_memos(&storage),
        "📋 保存済みメモ一覧:\n1. t2 | 大阪 | 雨 15.5℃ | 傘\n2. t1 | 東京 | 晴れ 20℃ | 散歩\n"
    );
}

#[test]
fn search_matches_part_of_city() {
    let mut storage = MemoStorage::new();
    storage.add_memo(note("東京都", "晴れ", "20", "a", "t1"));
    storage.add_memo(note("大阪", "雨", "15", "b", "t2"));
    storage.add_memo(note("東京", "曇り", "18", "c", "t3"));
    let found = storage.search_by_city("東京");
    assert_eq!(found.len(), 2);
    assert_eq!(found[0].note, "c");
    assert_eq!(found[1].note, "a");
    assert_eq!(storage.search_by_city("札幌").len(), 0);
    assert_eq!(storage.search_by_city("").len(), 3);
}

#[test]
fn city_search_listing() {
    let mut storage = MemoStorage::new();
    storage.add_memo(note("東京", "晴れ", "20", "a", "t1"));
    assert_eq!(format_memos_by_city(&storage, "東京"), "🔍 「東京」のメモ:\n1. t1 | 晴れ 20℃ | a\n");
    assert_eq!(format_memos_by_city(&storage, "福岡"), "🔍 「福岡」のメモは見つかりませんでした");
}

#[test]
fn save_confirmation() {
    let m = note("京都", "雪", "-1.5", "寒い", "t");
    assert_eq!(m.timestamp, "t");
    assert_eq!(memo_saved_message(&m), "✅ メモを保存しました: 京都 | 雪 -1.5℃");
}
