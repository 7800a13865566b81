use anchor_lang::prelude::borsh;
use favorites::record::{utf8_len, MAX_COLOR_LEN, MAX_HOBBIES, MAX_HOBBY_LEN};
use favorites::{Favorites, ACCOUNT_SPACE, ANCHOR_DISCRIMINATOR_SIZE, INIT_SPACE};

fn strings(items: &[&str]) -> Vec<String> {
    items.iter().map(|item| item.to_string()).collect()
}

#[test]
fn bounds_of_a_record() {
    assert_eq!(MAX_COLOR_LEN, 50);
    assert_eq!(MAX_HOBBIES, 5);
    assert_eq!(MAX_HOBBY_LEN, 50);
}

#[test]
fn reserved_space_is_header_plus_largest_fields() {
    assert_eq!(ANCHOR_DISCRIMINATOR_SIZE, 8);
    assert_eq!(INIT_SPACE, 8 + (4 + 50) + (4 + 5 * (4 + 50)));
    assert_eq!(INIT_SPACE, 336);
    assert_eq!(ACCOUNT_SPACE, 344);
}

#[test]
fn utf8_len_counts_bytes_not_characters() {
    assert_eq!(utf8_len(&String::new()), 0);
    assert_eq!(utf8_len(&"blue".to_string()), 4);
    assert_eq!(utf8_len(&"bleu foncé".to_string()), 11);
    assert_eq!(utf8_len(&"€".repeat(17)), 51);
}

#[test]
fn within_capacity_accepts_the_largest_record() {
    let color = "c".repeat(50);
    let hobbies = vec!["h".repeat(50); 5];
    assert!(Favorites::within_capacity(&color, &hobbies));
}

#[test]
fn within_capacity_accepts_the_empty_record() {
    assert!(Favorites::within_capacity(&String::new(), &Vec::new()));
}

#[test]
fn within_capacity_rejects_a_long_color() {
    assert!(!Favorites::within_capacity(&"c".repeat(51), &Vec::new()));
}

#[test]
fn within_capacity_rejects_a_sixth_hobby() {
    let hobbies = strings(&["a", "b", "c", "d", "e", "f"]);
    assert!(!Favorites::within_capacity(&"red".to_string(), &hobbies));
}

#[test]
fn within_capacity_rejects_a_long_hobby_wherever_it_stands() {
    for place in 0..5 {
        let mut hobbies = strings(&["a", "b", "c", "d", "e"]);
        hobbies[place] = "h".repeat(51);
        assert!(!Favorites::within_capacity(&"red".to_string(), &hobbies));
    }
}

#[test]
fn within_capacity_measures_encoded_bytes() {
    let sixteen = "€".repeat(16);
    assert!(Favorites::within_capacity(&format!("{sixteen}ab"), &Vec::new()));
    assert!(!Favorites::within_capacity(&format!("{sixteen}abc"), &Vec::new()));
    assert!(!Favorites::within_capacity(&String::new(), &vec!["€".repeat(17)]));
}

#[test]
fn encoded_len_of_the_example_record() {
    let record = Favorites {
        number: 42,
        color: "blue".to_string(),
        hobbies: strings(&["chess", "reading"]),
    };
    assert_eq!(record.encoded_len(), 8 + (4 + 4) + 4 + (4 + 5) + (4 + 7));
}

#[test]
fn encoded_len_of_the_empty_record() {
    let record = Favorites { number: 0, color: String::new(), hobbies: Vec::new() };
    assert_eq!(record.encoded_len(), 16);
}

#[test]
fn encoded_len_of_the_largest_record_fills_the_reservation() {
    let record = Favorites { number: u64::MAX, color: "c".repeat(50), hobbies: vec!["h".repeat(50); 5] };
    assert_eq!(record.encoded_len(), INIT_SPACE);
    assert_eq!(ANCHOR_DISCRIMINATOR_SIZE + record.encoded_len(), ACCOUNT_SPACE);
}

#[test]
fn encoded_len_is_the_length_of_the_borsh_encoding() {
    let records = [
        Favorites { number: 7, color: "red".to_string(), hobbies: Vec::new() },
        Favorites { number: 42, color: "blue".to_string(), hobbies: strings(&["chess", "reading"]) },
        Favorites { number: 1, color: "bleu foncé".to_string(), hobbies: strings(&["€", "", "ski"]) },
        Favorites { number: u64::MAX, color: "c".repeat(50), hobbies: vec!["h".repeat(50); 5] },
    ];
    for record in records {
        let fields = (record.number, record.color.clone(), record.hobbies.clone());
        let encoded = borsh::to_vec(&fields).unwrap();
        assert_eq!(record.encoded_len(), encoded.len());
    }
}
