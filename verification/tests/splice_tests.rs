use searchgen::splice::{CherryTree, Mammoth, Spliceable};

#[test]
fn cherry_trees_splice_to_a_cherry_tree() {
    let a = CherryTree {};
    let b = CherryTree {};
    assert_eq!(a.splice(&b), CherryTree {});
}

#[test]
fn mammoths_splice_to_a_mammoth() {
    let a = Mammoth {};
    let b = Mammoth {};
    assert_eq!(a.splice(&b), Mammoth {});
}
