use packer::compress::{choose_algorithm, Algorithm};

#[test]
fn huffman_flag_selects_huffman() {
    assert_eq!(choose_algorithm(true, false), Some(Algorithm::Huffman));
    assert_eq!(choose_algorithm(true, true), Some(Algorithm::Huffman));
}

#[test]
fn lz_flag_selects_lz() {
    assert_eq!(choose_algorithm(false, true), Some(Algorithm::LZ));
}

#[test]
fn no_flag_selects_nothing() {
    assert_eq!(choose_algorithm(false, false), None);
}
