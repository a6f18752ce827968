use hyper_socks2::{Error, ErrorKind};

#[test]
fn kinds_of_the_variants() {
    assert_eq!(Error::Socks("x").kind(), ErrorKind::Protocol);
    assert_eq!(Error::Connector("x").kind(), ErrorKind::Transport);
    assert_eq!(Error::Tls("x").kind(), ErrorKind::Tls);
    assert_eq!(Error::<&str>::MissingHost.kind(), ErrorKind::MissingHost);
}

#[test]
fn detail_is_kept_as_it_was_given() {
    assert_eq!(Error::Socks(vec![1u8, 2, 3]).into_detail(), Some(vec![1u8, 2, 3]));
    assert_eq!(Error::Connector(5u8).into_detail(), Some(5u8));
    assert_eq!(Error::Connector("refused").into_detail(), Some("refused"));
    assert_eq!(Error::Tls("expired").into_detail(), Some("expired"));
    assert_eq!(Error::<u8>::MissingHost.into_detail(), None);
}

#[test]
fn message_of_missing_host() {
    assert_eq!(Error::<String>::MissingHost.message(), "Missing host");
}

#[test]
fn message_is_that_of_the_detail() {
    assert_eq!(Error::Socks("No acceptable methods").message(), "No acceptable methods");
    assert_eq!(Error::Connector(17u32).message(), "17");
    assert_eq!(Error::Connector("refused".to_string()).message(), "refused");
    assert_eq!(Error::Tls('x').message(), "x");
}
