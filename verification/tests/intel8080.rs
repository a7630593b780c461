use multiemu_definition::intel8080::{Intel8080Config, Intel8080Kind};

#[test]
fn configs_pick_their_kind() {
    assert_eq!(Intel8080Config::lr35902().kind, Intel8080Kind::SharpLr35902);
    assert_eq!(Intel8080Config::z80().kind, Intel8080Kind::Zilog80);
    assert_eq!(Intel8080Config::i8080().kind, Intel8080Kind::Intel8080);
    assert_eq!(Intel8080Config::default().kind, Intel8080Kind::Intel8080);
    assert_eq!(Intel8080Kind::default(), Intel8080Kind::Intel8080);
}
