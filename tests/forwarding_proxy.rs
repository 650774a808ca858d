use no_logo::proxy::{genuine_library_path, Export, ExportTable, ForwardingProxy, ProxyError, Route, EXPORT_COUNT};

fn wide(s: &str) -> Vec<u16> {
    s.encode_utf16().collect()
}

#[test]
fn export_names_and_slots() {
    let all = Export::all();
    assert_eq!(all.len(), EXPORT_COUNT);
    let names: Vec<&str> = all.iter().map(|e| e.name()).collect();
    assert_eq!(
        names,
        vec!["DirectInput8Create", "DllCanUnloadNow", "DllGetClassObject", "DllRegisterServer", "DllUnregisterServer"]
    );
    for (i, e) in all.iter().enumerate() {
        assert_eq!(e.index(), i);
    }
}

#[test]
fn table_from_complete_lookups() {
    let t = ExportTable::from_lookups(&vec![10, 20, 30, 40, 50]).unwrap();
    assert_eq!(t.address(Export::DirectInput8Create), 10);
    assert_eq!(t.address(Export::DllGetClassObject), 30);
    assert_eq!(t.address(Export::DllUnregisterServer), 50);
}

#[test]
fn table_reports_first_missing_symbol() {
    assert_eq!(ExportTable::from_lookups(&vec![10, 0, 30, 0, 50]).err(), Some(ProxyError::MissingSymbol(1)));
    assert_eq!(ExportTable::from_lookups(&vec![10, 20, 30, 40, 0]).err(), Some(ProxyError::MissingSymbol(4)));
    assert_eq!(ExportTable::from_lookups(&vec![10, 20]).err(), Some(ProxyError::WrongCount));
}

#[test]
fn proxy_routes_to_initialisation_first() {
    let p = ForwardingProxy::new();
    assert!(!p.is_ready());
    assert_eq!(p.route(Export::DirectInput8Create), Route::Initialize);
}

#[test]
fn proxy_forwards_after_initialisation() {
    let mut p = ForwardingProxy::new();
    assert_eq!(p.initialize(&vec![10, 20, 30, 40, 50]), Ok(()));
    assert!(p.is_ready());
    assert_eq!(p.route(Export::DirectInput8Create), Route::Forward(10));
    assert_eq!(p.route(Export::DllCanUnloadNow), Route::Forward(20));
    assert_eq!(p.route(Export::DllRegisterServer), Route::Forward(40));
    for e in Export::all() {
        assert_ne!(p.route(e), Route::Forward(0));
    }
}

#[test]
fn proxy_keeps_its_first_resolution() {
    let mut p = ForwardingProxy::new();
    p.initialize(&vec![10, 20, 30, 40, 50]).unwrap();
    assert_eq!(p.initialize(&vec![1, 2, 3, 4, 5]), Ok(()));
    assert_eq!(p.route(Export::DirectInput8Create), Route::Forward(10));
}

#[test]
fn proxy_stays_unresolved_on_missing_symbol() {
    let mut p = ForwardingProxy::new();
    assert_eq!(p.initialize(&vec![10, 20, 0, 40, 50]), Err(ProxyError::MissingSymbol(2)));
    assert!(!p.is_ready());
    assert_eq!(p.route(Export::DllGetClassObject), Route::Initialize);
}

#[test]
fn genuine_path_joins_system_directory() {
    let mut buf = wide("C:\\Windows\\system32");
    let len = buf.len();
    buf.resize(320, 0);
    let path = genuine_library_path(&buf, len);
    let mut expected = wide("C:\\Windows\\system32\\dinput8.dll");
    expected.push(0);
    assert_eq!(path, expected);
}

#[test]
fn genuine_path_stops_at_first_nul() {
    let mut buf = wide("C:\\Win");
    buf.push(0);
    buf.extend(wide("dows"));
    let len = buf.len();
    let path = genuine_library_path(&buf, len);
    let mut expected = wide("C:\\Win");
    expected.push(0);
    assert_eq!(path, expected);
}

#[test]
fn genuine_path_with_empty_directory() {
    let buf = vec![0u16; 320];
    let path = genuine_library_path(&buf, 0);
    let mut expected = wide("\\dinput8.dll");
    expected.push(0);
    assert_eq!(path, expected);
}
