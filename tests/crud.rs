use seven_guis::crud::{matches_folded, reindex, AppData, ListItem};

fn texts(v: &[ListItem]) -> Vec<(usize, String)> {
    v.iter().map(|i| (i.index, i.item.clone())).collect()
}

#[test]
fn crud_starts_with_three_entries() {
    let data = AppData::new();
    assert_eq!(
        texts(&data.list),
        vec![
            (0, "Emil, Hans".to_string()),
            (1, "Mustermann, Max".to_string()),
            (2, "Tisch, Roman".to_string()),
        ]
    );
    assert_eq!(data.prefix, "");
    assert_eq!(data.name, "John");
    assert_eq!(data.surname, "Romba");
    assert_eq!(data.current, None);
}

#[test]
fn filter_ignores_case() {
    let mut data = AppData::new();
    data.prefix = "EMIL".to_string();
    assert_eq!(texts(&data.filter()), vec![(0, "Emil, Hans".to_string())]);
    data.prefix = "man".to_string();
    assert_eq!(
        texts(&data.filter()),
        vec![(1, "Mustermann, Max".to_string()), (2, "Tisch, Roman".to_string())]
    );
    data.prefix = "xyz".to_string();
    assert!(data.filter().is_empty());
}

#[test]
fn empty_filter_keeps_all() {
    let data = AppData::new();
    assert_eq!(texts(&data.filter()), texts(&data.list));
}

#[test]
fn matches_folded_is_substring() {
    assert!(matches_folded("", ""));
    assert!(matches_folded("", "abc"));
    assert!(matches_folded("bc", "abc"));
    assert!(matches_folded("abc", "abc"));
    assert!(!matches_folded("abcd", "abc"));
    assert!(!matches_folded("B", "abc"));
    assert!(!matches_folded("ac", "abc"));
}

#[test]
fn create_appends_entry() {
    let mut data = AppData::new();
    data.create();
    assert_eq!(data.list.len(), 4);
    assert_eq!(data.list[3].index, 3);
    assert_eq!(data.list[3].item, "Romba, John");
}

#[test]
fn update_replaces_selected() {
    let mut data = AppData::new();
    data.update();
    assert_eq!(texts(&data.list), texts(&AppData::new().list));
    data.select(1);
    data.name = "Erika".to_string();
    data.surname = "Musterfrau".to_string();
    data.update();
    assert_eq!(data.list[1].item, "Musterfrau, Erika");
    assert_eq!(data.list[1].index, 1);
    assert_eq!(data.current, Some(1));
    assert_eq!(data.list[0].item, "Emil, Hans");
}

#[test]
fn delete_removes_and_renumbers() {
    let mut data = AppData::new();
    data.delete();
    assert_eq!(data.list.len(), 3);
    data.select(0);
    data.delete();
    assert_eq!(
        texts(&data.list),
        vec![(0, "Mustermann, Max".to_string()), (1, "Tisch, Roman".to_string())]
    );
    assert_eq!(data.current, None);
}

#[test]
fn reindex_numbers_from_zero() {
    let v = vec![ListItem::new(5, "a".to_string()), ListItem::new(9, "b".to_string())];
    assert_eq!(texts(&reindex(&v)), vec![(0, "a".to_string()), (1, "b".to_string())]);
}
