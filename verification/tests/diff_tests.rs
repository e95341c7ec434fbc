use maikor_debugger::diff::calc_diff;

#[test]
fn equal_snapshots_give_empty_diff() {
    assert_eq!(calc_diff([0; 9], [0; 9]), "");
    assert_eq!(
        calc_diff([1, 2, 3, 4, 5, 6, 7, 8, 9], [1, 2, 3, 4, 5, 6, 7, 8, 9]),
        ""
    );
    assert_eq!(calc_diff([255; 9], [255; 9]), "");
}

#[test]
fn low_byte_change_fires_byte_and_word_views() {
    let before = [0, 1, 0, 0, 0, 0, 0, 0, 0];
    let after = [0, 2, 0, 0, 0, 0, 0, 0, 0];
    assert_eq!(calc_diff(before, after), "AL = 1 -> 2, AX = 1 -> 2");
}

#[test]
fn high_byte_change_fires_byte_and_word_views() {
    let before = [1, 0, 0, 0, 0, 0, 0, 0, 0];
    let after = [2, 0, 0, 0, 0, 0, 0, 0, 0];
    assert_eq!(calc_diff(before, after), "AH = 1 -> 2, AX = 256 -> 512");
}

#[test]
fn flags_byte_change_fires_only_flg_view() {
    let before = [0, 0, 0, 0, 0, 0, 0, 0, 65];
    let after = [0, 0, 0, 0, 0, 0, 0, 0, 1];
    assert_eq!(calc_diff(before, after), "FLG = 65 -> 1");
}

#[test]
fn entries_follow_table_order() {
    let before = [1, 0, 0, 0, 0, 0, 0, 9, 0];
    let after = [2, 0, 0, 0, 0, 0, 0, 10, 7];
    assert_eq!(
        calc_diff(before, after),
        "AH = 1 -> 2, DL = 9 -> 10, AX = 256 -> 512, DX = 9 -> 10, FLG = 0 -> 7"
    );
}

#[test]
fn word_views_read_big_endian_pairs() {
    let before = [0, 0, 0xAB, 0xCD, 0, 0, 0, 0, 0];
    let after = [0, 0, 0xAB, 0xCE, 0, 0, 0, 0, 0];
    assert_eq!(calc_diff(before, after), "BL = 205 -> 206, BX = 43981 -> 43982");
}
