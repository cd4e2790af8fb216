use channels_lite::utils::payload::{read_part, Envelope};

#[test]
fn empty_part_reads_as_nothing() {
    assert_eq!(read_part(Vec::new()), None);
}

#[test]
fn written_part_reads_as_itself() {
    assert_eq!(read_part(vec![123, 125]), Some(vec![123, 125]));
    assert_eq!(read_part(vec![0]), Some(vec![0]));
}

#[test]
fn envelope_parts_are_optional_each_by_itself() {
    assert_eq!(
        Envelope::open(vec![1, 2], Vec::new()),
        Envelope { public: Some(vec![1, 2]), masked: None }
    );
    assert_eq!(
        Envelope::open(Vec::new(), vec![3]),
        Envelope { public: None, masked: Some(vec![3]) }
    );
    assert_eq!(Envelope::open(Vec::new(), Vec::new()), Envelope { public: None, masked: None });
    assert_eq!(
        Envelope::open(vec![1], vec![2]),
        Envelope { public: Some(vec![1]), masked: Some(vec![2]) }
    );
}
