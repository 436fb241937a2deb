use trade_copier::deps::Os;
use trade_copier::experts::{
    bundle_sources_in, instance_experts_dir, instance_sources, instance_sources_in, join_strings, mac_master_missing,
    master_experts_candidates, master_experts_dir, pick_source, publish_source_missing,
    publish_sources, publish_summary, select_files, windows_master_missing, DirEntry,
};

fn entry(name: &str, is_file: bool) -> DirEntry {
    DirEntry { name: name.to_string(), is_file }
}

#[test]
fn test_get_master_mt5_experts_path() {
    let candidates = master_experts_candidates(Os::MacOs, Some("/Users/trader"), None).unwrap();
    let exists = vec![true];
    match pick_source(&candidates, &exists, "missing") {
        Ok(path) => {
            assert_eq!(
                path,
                "/Users/trader/Library/Application Support/net.metaquotes.wine.metatrader5/drive_c/Program Files/MetaTrader 5/MQL5/Experts"
            );
        }
        Err(e) => panic!("unexpected: {}", e),
    }
    assert_eq!(
        master_experts_candidates(Os::MacOs, None, None),
        Err("Failed to get home directory".to_string())
    );
    assert_eq!(
        master_experts_candidates(Os::Linux, Some("/home/x"), None),
        Err("Unsupported platform. Only macOS and Windows are supported.".to_string())
    );
    assert_eq!(
        master_experts_candidates(Os::Windows, None, Some("C:\\Users\\t\\AppData\\Local")),
        Ok(vec![
            "C:\\Program Files\\MetaTrader 5\\MQL5\\Experts".to_string(),
            "C:\\Program Files (x86)\\MetaTrader 5\\MQL5\\Experts".to_string(),
            "C:\\Users\\t\\AppData\\Local\\Programs\\MetaTrader 5\\MQL5\\Experts".to_string(),
        ])
    );
}

#[test]
fn test_get_ea_source_path() {
    let (dev, bundle) = publish_sources(Os::MacOs, Some("/Applications/TC.app/Contents/MacOS"));
    assert_eq!(
        dev,
        vec![
            "./src-tauri/src/mql5/Trading Rocket".to_string(),
            "./src/mql5/Trading Rocket".to_string(),
            "./mql5/Trading Rocket".to_string(),
        ]
    );
    assert_eq!(
        bundle,
        vec![
            "/Applications/TC.app/Contents/Resources/src/mql5/Trading Rocket".to_string(),
            "/Applications/TC.app/Contents/Resources/mql5/Trading Rocket".to_string(),
        ]
    );
    let mut all = dev.clone();
    all.extend(bundle.clone());
    match pick_source(&all, &[false, false, false, false, true], "none") {
        Ok(path) => assert_eq!(path, "/Applications/TC.app/Contents/Resources/mql5/Trading Rocket"),
        Err(e) => panic!("unexpected: {}", e),
    }
    let shown_dev: Vec<String> = dev.iter().map(|p| format!("{:?}", p)).collect();
    let shown_bundle: Vec<String> = bundle.iter().map(|p| format!("{:?}", p)).collect();
    assert_eq!(
        publish_source_missing(&shown_dev, &shown_bundle),
        "Expert Advisor source directory not found. Tried:\n  \"./src-tauri/src/mql5/Trading Rocket\"\n  \"./src/mql5/Trading Rocket\"\n  \"./mql5/Trading Rocket\"\n  \"/Applications/TC.app/Contents/Resources/src/mql5/Trading Rocket\"\n  \"/Applications/TC.app/Contents/Resources/mql5/Trading Rocket\""
    );
}

#[test]
fn windows_bundle_sources() {
    let (_, bundle) = publish_sources(Os::Windows, Some("C:\\TC"));
    assert_eq!(
        bundle,
        vec!["C:\\TC\\src\\mql5\\Trading Rocket".to_string(), "C:\\TC\\mql5\\Trading Rocket".to_string()]
    );
    let (_, bundle) = publish_sources(Os::MacOs, None);
    assert!(bundle.is_empty());
    assert_eq!(
        bundle_sources_in(Os::Windows, Some("C:"), None),
        vec!["C:src\\mql5\\Trading Rocket".to_string(), "C:mql5\\Trading Rocket".to_string()]
    );
    assert_eq!(
        bundle_sources_in(Os::Windows, Some("C:\\"), None),
        vec!["C:\\src\\mql5\\Trading Rocket".to_string(), "C:\\mql5\\Trading Rocket".to_string()]
    );
}

#[test]
fn files_to_copy() {
    let es = vec![
        entry("TradingRocket.ex5", true),
        entry(".DS_Store", true),
        entry("sub", false),
        entry(".hidden_dir", false),
        entry("Helper.mq5", true),
    ];
    let (names, skipped) = select_files(&es);
    assert_eq!(names, vec!["TradingRocket.ex5".to_string(), "Helper.mq5".to_string()]);
    assert_eq!(skipped, 1);
    assert_eq!(select_files(&vec![]), (vec![], 0));
}

#[test]
fn instance_source_places() {
    assert_eq!(
        instance_sources(Some("/opt/tc/bin")),
        vec![
            "./mql5/Trading Rocket".to_string(),
            "./src/mql5/Trading Rocket".to_string(),
            "/opt/tc/Resources/mql5/Trading Rocket".to_string(),
            "/opt/tc/bin/mql5/Trading Rocket".to_string(),
        ]
    );
    assert_eq!(
        instance_sources(Some("/")),
        vec![
            "./mql5/Trading Rocket".to_string(),
            "./src/mql5/Trading Rocket".to_string(),
            "/mql5/Trading Rocket".to_string(),
        ]
    );
    assert_eq!(
        instance_sources_in(Some("/opt/tc/bin/"), Some("/opt/tc")),
        vec![
            "./mql5/Trading Rocket".to_string(),
            "./src/mql5/Trading Rocket".to_string(),
            "/opt/tc/Resources/mql5/Trading Rocket".to_string(),
            "/opt/tc/bin/mql5/Trading Rocket".to_string(),
        ]
    );
    let both = instance_sources(None);
    assert_eq!(pick_source(&both, &[true, true], "gone"), Ok("./mql5/Trading Rocket".to_string()));
    assert_eq!(pick_source(&both, &[false, true], "gone"), Ok("./src/mql5/Trading Rocket".to_string()));
    assert_eq!(instance_sources(None).len(), 2);
    assert_eq!(pick_source(&instance_sources(None), &[false, false], "gone"), Err("gone".to_string()));
    assert_eq!(
        instance_experts_dir("/p"),
        "/p/drive_c/Program Files/MetaTrader 5/MQL5/Experts/Trading Rocket"
    );
    assert_eq!(master_experts_dir("/e/Experts"), "/e/Experts/Trading Rocket");
}

#[test]
fn reports() {
    assert_eq!(join_strings(&vec![], ", "), "");
    assert_eq!(join_strings(&vec!["a".to_string()], ", "), "a");
    assert_eq!(join_strings(&vec!["a".to_string(), "b".to_string(), "c".to_string()], ", "), "a, b, c");
    assert_eq!(
        mac_master_missing("\"/x\""),
        "Master MT5 installation not found at: \"/x\"\n  Please ensure MetaTrader 5 is installed before starting this application."
    );
    assert_eq!(
        windows_master_missing(&vec!["\"A\"".to_string(), "\"B\"".to_string()]),
        "Master MT5 installation not found. Checked:\n  \"A\"\n  \"B\"\n  Please ensure MetaTrader 5 is installed before starting this application."
    );
    assert_eq!(
        publish_summary(3, 1),
        "[EA_SYNC] \u{2713} Successfully synchronized 3 Expert Advisor file(s) (1 skipped)"
    );
}
