use mod_player::textout::note_string;

#[test]
fn it_works() {
    assert_eq!(2 + 2, 4);
}

#[test]
fn test_note_string() {
    assert_eq!(note_string(57), "B-6", "Match first note");
    assert_eq!(note_string(1712), "C-2", "Match first note");
    assert_eq!(note_string(2000), "C-2", "Values past lowest map to C-2");
    assert_eq!(note_string(12), "B-6", "Values past highest map to C-2");
    assert_eq!(note_string(0), "...", "zero maps to ellipsis");
    assert_eq!(note_string(128), "A-5", "Umatched go to nearest");
    assert_eq!(note_string(133), "G#5", "Umatched go to nearest");
    assert_eq!(note_string(184), "D#5", "Umatched go to nearest");
    assert_eq!(note_string(185), "D-5", "Umatched go to nearest");
    assert_eq!(note_string(185), "D-5", "Umatched go to nearest");
}
