//! The descriptor builder: record images, the sentinel, key validation and
//! key uniqueness.

use zbx::{create_items, Metric, ZbxError, CF_HAVEPARAMS, CF_NOPARAMS};

fn metric(key: &str, flags: u32, function: usize, test_param: &str) -> Metric {
    Metric::new(
        key.as_bytes().to_vec(),
        flags,
        function,
        test_param.as_bytes().to_vec(),
    )
    .expect("valid metric")
}

#[test]
fn array_has_n_plus_one_records() {
    let metrics = vec![
        metric("rust.echo", CF_HAVEPARAMS, 0, ""),
        metric("rust.random", CF_NOPARAMS, 1, ""),
        metric("rust.third", CF_NOPARAMS, 2, "probe"),
    ];
    let items = create_items(&metrics).expect("no duplicate keys");
    assert_eq!(items.len(), metrics.len() + 1);
}

#[test]
fn sentinel_closes_the_array() {
    let metrics = vec![metric("rust.echo", CF_HAVEPARAMS, 0, "")];
    let items = create_items(&metrics).expect("no duplicate keys");
    let sentinel = &items[items.len() - 1];
    assert_eq!(sentinel.key, vec![0u8]);
    assert_eq!(sentinel.flags, 0);
    assert_eq!(sentinel.function, 0);
    assert_eq!(sentinel.test_param, vec![0u8]);
}

#[test]
fn records_carry_nul_terminated_images_in_order() {
    let metrics = vec![
        metric("rust.echo", CF_HAVEPARAMS, 0, "hello"),
        metric("rust.random", CF_NOPARAMS, 1, ""),
    ];
    let items = create_items(&metrics).expect("no duplicate keys");
    assert_eq!(items[0].key, b"rust.echo\0".to_vec());
    assert_eq!(items[0].flags, CF_HAVEPARAMS);
    assert_eq!(items[0].function, 0);
    assert_eq!(items[0].test_param, b"hello\0".to_vec());
    assert_eq!(items[1].key, b"rust.random\0".to_vec());
    assert_eq!(items[1].flags, CF_NOPARAMS);
    assert_eq!(items[1].function, 1);
    assert_eq!(items[1].test_param, b"\0".to_vec());
}

#[test]
fn non_sentinel_keys_are_unique() {
    let metrics = vec![
        metric("a.one", CF_NOPARAMS, 0, ""),
        metric("a.two", CF_NOPARAMS, 1, ""),
    ];
    let items = create_items(&metrics).expect("no duplicate keys");
    for i in 0..metrics.len() {
        for j in (i + 1)..metrics.len() {
            assert_ne!(items[i].key, items[j].key);
        }
    }
}

#[test]
fn duplicate_keys_are_refused() {
    let metrics = vec![
        metric("rust.echo", CF_HAVEPARAMS, 0, ""),
        metric("rust.echo", CF_NOPARAMS, 1, ""),
    ];
    assert!(matches!(create_items(&metrics), Err(ZbxError::DuplicateKey)));
}

#[test]
fn empty_list_gives_only_the_sentinel() {
    let items = create_items(&Vec::new()).expect("no duplicate keys");
    assert_eq!(items.len(), 1);
    assert_eq!(items[0].key, vec![0u8]);
}

#[test]
fn empty_key_is_refused() {
    let r = Metric::new(Vec::new(), CF_NOPARAMS, 0, Vec::new());
    assert!(matches!(r, Err(ZbxError::InvalidKey)));
}

#[test]
fn nul_in_key_is_refused() {
    let r = Metric::new(b"bad\0key".to_vec(), CF_NOPARAMS, 0, Vec::new());
    assert!(matches!(r, Err(ZbxError::InvalidKey)));
}

#[test]
fn nul_in_test_param_is_refused() {
    let r = Metric::new(b"good.key".to_vec(), CF_NOPARAMS, 0, b"a\0b".to_vec());
    assert!(matches!(r, Err(ZbxError::InvalidKey)));
}

#[test]
fn to_zabbix_item_builds_one_record() {
    let m = metric("rust.echo", CF_HAVEPARAMS, 7, "ping");
    let z = m.to_zabbix_item();
    assert_eq!(z.key, b"rust.echo\0".to_vec());
    assert_eq!(z.flags, CF_HAVEPARAMS);
    assert_eq!(z.function, 7);
    assert_eq!(z.test_param, b"ping\0".to_vec());
}
