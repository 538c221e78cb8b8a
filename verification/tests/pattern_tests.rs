use tranrss::feeds::fix_pubdates;
use tranrss::subscriptions::{outline_matches, title_in};

#[test]
fn pubdates_get_the_zone() {
    let xml = "<item><pubDate>2024-01-02 03:04:05</pubDate></item>";
    assert_eq!(fix_pubdates(xml), "<item><pubDate>2024-01-02 03:04:05 +0800</pubDate></item>");
    let zoned = "<pubDate>Tue, 02 Jan 2024 03:04:05 +0000</pubDate>";
    assert_eq!(fix_pubdates(zoned), zoned);
    let arabic = "<pubDate>٢٠٢٤-01-02 03:04:05</pubDate>";
    assert_eq!(fix_pubdates(arabic), "<pubDate>٢٠٢٤-01-02 03:04:05 +0800</pubDate>");
    let two = "<pubDate>2024-01-02 03:04:05</pubDate><pubDate>2024-01-02 03:04:06</pubDate>";
    assert_eq!(
        fix_pubdates(two),
        "<pubDate>2024-01-02 03:04:05 +0800</pubDate><pubDate>2024-01-02 03:04:06 +0800</pubDate>"
    );
    let nested = "<pubDate><pubDate>2024-01-02 03:04:05</pubDate>";
    assert_eq!(fix_pubdates(nested), "<pubDate><pubDate>2024-01-02 03:04:05 +0800</pubDate>");
    assert_eq!(fix_pubdates("<pubDate>2024-1-02 03:04:05</pubDate>"), "<pubDate>2024-1-02 03:04:05</pubDate>");
    assert_eq!(fix_pubdates(""), "");
}

#[test]
fn outlines_take_the_last_address_of_a_tag() {
    let text = "<outline text=\"a\" xmlUrl=\"http://a\" xmlUrl='http://b'/>";
    assert_eq!(outline_matches(text), vec![(text.to_string(), "http://b".to_string())]);
    let mixed = "<outline xmlUrl=\"http://m'/>";
    assert_eq!(outline_matches(mixed), vec![(mixed.to_string(), "http://m".to_string())]);
    assert!(outline_matches("<outline>xmlUrl=\"http://a\">").is_empty());
    assert!(outline_matches("<outline xmlUrl=\"\"/>").is_empty());
    let two = "<outline xmlUrl=\"u\"/>\n<outline a='b' xmlUrl='v'>";
    assert_eq!(
        outline_matches(two),
        vec![
            ("<outline xmlUrl=\"u\"/>".to_string(), "u".to_string()),
            ("<outline a='b' xmlUrl='v'>".to_string(), "v".to_string())
        ]
    );
    // the address may run past a `>`; the tag then ends at the next `>` after it
    let long = "<outline xmlUrl=\"a>b\" x>";
    assert_eq!(outline_matches(long), vec![(long.to_string(), "a>b".to_string())]);
}

#[test]
fn titles_follow_the_attribute_grammar() {
    assert_eq!(title_in("<outline subtitle=\"S\" title='T'>"), Some("S".to_string()));
    assert_eq!(title_in("<outline title=\"\" title=\"T\">"), Some("T".to_string()));
    assert_eq!(title_in("<outline text=\"x\">"), None);
    assert_eq!(title_in("<outline title=\"A 'q\">"), Some("A ".to_string()));
    assert_eq!(title_in("title='x"), None);
}
