use rtorrent::{parse_ipv4, Expected, Ipv4, Query, RTorrent, Reply, RpcError, Torrent};

fn text(s: &str) -> Reply {
    Reply::Text(s.to_string())
}

fn row(hash: &str, name: &str, path: &str, size: i64, label: &str, ratio: i64) -> Reply {
    Reply::List(vec![text(hash), text(name), text(path), Reply::Int(size), text(label), Reply::Int(ratio)])
}

fn sample_torrent() -> Torrent {
    Torrent {
        hash: "abc123".to_string(),
        name: "MyFile".to_string(),
        path: "/downloads".to_string(),
        size: 104857600,
        label: "movies".to_string(),
        ratio_milli: 1500,
    }
}

#[test]
fn it_works() {
    assert_eq!(2 + 2, 4);
}

#[test]
fn new_keeps_the_address() {
    let c = RTorrent::new("http://localhost/RPC2".to_string());
    assert_eq!(c.url(), "http://localhost/RPC2");
}

#[test]
fn ip_parses_dotted_decimal() {
    let x = RTorrent::ip(&text("192.168.0.1")).unwrap();
    assert_eq!(x, Ipv4 { a: 192, b: 168, c: 0, d: 1 });
    assert_eq!(x.octets(), [192, 168, 0, 1]);
    assert_eq!(RTorrent::ip(&text("0.0.0.0")).unwrap(), Ipv4 { a: 0, b: 0, c: 0, d: 0 });
    assert_eq!(RTorrent::ip(&text("255.255.255.255")).unwrap(), Ipv4 { a: 255, b: 255, c: 255, d: 255 });
}

#[test]
fn ip_rejects_what_is_no_address() {
    for s in ["", "localhost", "1.2.3", "1.2.3.4.5", "256.1.1.1", "01.2.3.4", "1..2.3", "1.2.3.4 ", " 1.2.3.4", "1.2.3.-4", "1000.1.1.1", "1.2.3.4."] {
        match RTorrent::ip(&text(s)) {
            Err(RpcError::NotAnAddress(t)) => assert_eq!(t, s),
            other => panic!("{:?} gave {:?}", s, other),
        }
    }
    assert!(matches!(RTorrent::ip(&Reply::Int(7)), Err(RpcError::UnexpectedShape(Expected::Text))));
}

#[test]
fn parse_ipv4_round_trips_every_octet() {
    for n in 0..=255u8 {
        let s = format!("{}.{}.{}.{}", n, 255 - n, n / 2, 7);
        assert_eq!(parse_ipv4(&s), Some(Ipv4 { a: n, b: 255 - n, c: n / 2, d: 7 }));
    }
}

#[test]
fn scalar_accessors_decode_integers_and_text() {
    assert_eq!(RTorrent::name(&text("seedbox")).unwrap(), "seedbox");
    assert_eq!(RTorrent::down_total(&Reply::Int(123456789012)).unwrap(), 123456789012);
    assert_eq!(RTorrent::down_rate(&Reply::Int(5000)).unwrap(), 5000);
    assert_eq!(RTorrent::up_total(&Reply::Int(-1)).unwrap(), -1);
    assert_eq!(RTorrent::up_rate(&Reply::Int(0)).unwrap(), 0);
    assert!(matches!(RTorrent::name(&Reply::Int(1)), Err(RpcError::UnexpectedShape(Expected::Text))));
    assert!(matches!(RTorrent::down_total(&text("1")), Err(RpcError::UnexpectedShape(Expected::Integer))));
    assert!(matches!(RTorrent::up_rate(&Reply::Other), Err(RpcError::UnexpectedShape(Expected::Integer))));
}

#[test]
fn queries_name_the_remote_methods() {
    let cases = [
        (Query::BindAddress, "network.bind_address"),
        (Query::Hostname, "system.hostname"),
        (Query::DownTotal, "throttle.global_down.total"),
        (Query::DownRate, "throttle.global_down.rate"),
        (Query::UpTotal, "throttle.global_up.total"),
        (Query::UpRate, "throttle.global_up.rate"),
    ];
    for (q, m) in cases {
        let c = q.call();
        assert_eq!(c.method, m);
        assert!(c.args.is_empty());
    }
}

#[test]
fn listing_call_has_the_getters_in_order() {
    let c = Query::Torrents("main".to_string()).call();
    assert_eq!(c.method, "d.multicall2");
    assert_eq!(
        c.args,
        vec!["", "main", "d.hash=", "d.name=", "d.base_path=", "d.size_bytes=", "d.custom1=", "d.ratio="]
    );
}

#[test]
fn status_queries_pass_the_hash() {
    let qs = RTorrent::status_queries(&sample_torrent());
    let calls: Vec<(String, Vec<String>)> = qs.iter().map(|q| { let c = q.call(); (c.method, c.args) }).collect();
    let h = vec!["abc123".to_string()];
    assert_eq!(
        calls,
        vec![
            ("d.complete".to_string(), h.clone()),
            ("d.completed_bytes".to_string(), h.clone()),
            ("d.down.rate".to_string(), h.clone()),
            ("d.up.rate".to_string(), h),
        ]
    );
}

#[test]
fn listing_of_one_row() {
    let reply = Reply::List(vec![row("abc123", "MyFile", "/downloads", 104857600, "movies", 1500)]);
    let ts = RTorrent::get_torrents(&reply).unwrap();
    assert_eq!(ts.len(), 1);
    let t = &ts[0];
    assert_eq!(t.hash, "abc123");
    assert_eq!(t.name, "MyFile");
    assert_eq!(t.path, "/downloads");
    assert_eq!(t.size, 104857600);
    assert_eq!(t.label, "movies");
    assert_eq!(t.ratio_milli, 1500);
    assert_eq!(t.ratio_milli as f64 / 1000.0, 1.5);
}

#[test]
fn listing_keeps_order_and_raw_ratios() {
    let reply = Reply::List(vec![
        row("h1", "a", "/x", 1, "", 0),
        row("h2", "b", "/y", 2, "tv", -250),
        row("h3", "c", "/z", 3, "l", 1234),
    ]);
    let ts = RTorrent::get_torrents(&reply).unwrap();
    let hashes: Vec<&str> = ts.iter().map(|t| t.hash.as_str()).collect();
    assert_eq!(hashes, vec!["h1", "h2", "h3"]);
    let ratios: Vec<i64> = ts.iter().map(|t| t.ratio_milli).collect();
    assert_eq!(ratios, vec![0, -250, 1234]);
    assert_eq!(ts[1].ratio_milli as f64 / 1000.0, -0.25);
    assert_eq!(ts[2].ratio_milli as f64 / 1000.0, 1.234);
    assert_eq!(ts[1].label, "tv");
    assert_eq!(ts[0].label, "");
}

#[test]
fn empty_listing() {
    assert!(RTorrent::get_torrents(&Reply::List(vec![])).unwrap().is_empty());
}

#[test]
fn listing_row_of_five_is_a_shape_error() {
    let short = Reply::List(vec![text("abc123"), text("MyFile"), text("/downloads"), Reply::Int(1), text("movies")]);
    let reply = Reply::List(vec![row("h1", "a", "/x", 1, "", 0), short]);
    assert!(matches!(RTorrent::get_torrents(&reply), Err(RpcError::UnexpectedShape(Expected::Row))));
}

#[test]
fn listing_with_wrong_kinds_is_a_shape_error() {
    let swapped = Reply::List(vec![text("h"), text("n"), text("p"), text("10"), text("l"), Reply::Int(0)]);
    assert!(matches!(RTorrent::get_torrents(&Reply::List(vec![swapped])), Err(RpcError::UnexpectedShape(Expected::Row))));
    assert!(matches!(RTorrent::get_torrents(&text("x")), Err(RpcError::UnexpectedShape(Expected::List))));
    assert!(matches!(RTorrent::get_torrents(&Reply::List(vec![Reply::Int(3)])), Err(RpcError::UnexpectedShape(Expected::Row))));
}

#[test]
fn status_of_a_finished_item() {
    let st = RTorrent::get_status(&Reply::Int(1), &Reply::Int(104857600), &Reply::Int(5000), &Reply::Int(2000)).unwrap();
    assert!(st.completed);
    assert_eq!(st.completed_bytes, 104857600);
    assert_eq!(st.down_rate, 5000);
    assert_eq!(st.up_rate, 2000);
    assert_eq!(st.ratio_milli, 5000);
    assert_eq!(st.ratio_milli as f64 / 1000.0, 5.0);
}

#[test]
fn status_completed_boundaries() {
    for (c, done) in [(-1, false), (0, false), (1, true)] {
        let st = RTorrent::get_status(&Reply::Int(c), &Reply::Int(0), &Reply::Int(0), &Reply::Int(0)).unwrap();
        assert_eq!(st.completed, done);
    }
}

#[test]
fn status_ratio_follows_down_rate() {
    let st = RTorrent::get_status(&Reply::Int(0), &Reply::Int(10), &Reply::Int(1234), &Reply::Int(99)).unwrap();
    assert_eq!(st.ratio_milli, 1234);
    assert_eq!(st.ratio_milli as f64 / 1000.0, 1.234);
}

#[test]
fn status_with_a_non_integer_is_a_shape_error() {
    let r = RTorrent::get_status(&Reply::Int(1), &text("x"), &Reply::Int(1), &Reply::Int(1));
    assert!(matches!(r, Err(RpcError::UnexpectedShape(Expected::Integer))));
}

fn request_xml(q: Query) -> String {
    let call = q.call();
    let mut buf: Vec<u8> = Vec::new();
    call.request().write_as_xml(&mut buf).unwrap();
    String::from_utf8(buf).unwrap()
}

#[test]
fn request_carries_method_and_string_arguments_in_order() {
    let xml = request_xml(Query::Torrents("main".to_string()));
    assert!(xml.contains("<methodName>d.multicall2</methodName>"));
    let params: Vec<&str> = xml.split("<param>").skip(1).collect();
    assert_eq!(params.len(), 8);
    let expected = ["", "main", "d.hash=", "d.name=", "d.base_path=", "d.size_bytes=", "d.custom1=", "d.ratio="];
    for (p, e) in params.iter().zip(expected.iter()) {
        assert!(p.contains(&format!("<value><string>{}</string></value>", e)), "{} lacks {}", p, e);
    }
}

#[test]
fn request_without_arguments() {
    let xml = request_xml(Query::Hostname);
    assert!(xml.contains("<methodName>system.hostname</methodName>"));
    assert!(!xml.contains("<param>"));
    let xml = request_xml(Query::Complete("abc123".to_string()));
    assert!(xml.contains("<methodName>d.complete</methodName>"));
    assert_eq!(xml.matches("<param>").count(), 1);
    assert!(xml.contains("<string>abc123</string>"));
}
