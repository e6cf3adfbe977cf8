use mc_cli::fabric::{latest_stable, GameVersion, LoaderVersion};

fn game(v: &str, stable: bool) -> GameVersion {
    GameVersion { version: v.to_string(), stable }
}

#[test]
fn latest_stable_takes_first_stable() {
    let vs = vec![game("24w10a", false), game("1.20.4", true), game("1.20.3", true)];
    assert_eq!(latest_stable(vs).unwrap().version, "1.20.4");
}

#[test]
fn latest_stable_none_when_no_stable() {
    assert!(latest_stable(vec![game("24w10a", false)]).is_none());
    assert!(latest_stable(Vec::<GameVersion>::new()).is_none());
}

#[test]
fn latest_stable_loader() {
    let l = |v: &str, stable: bool| LoaderVersion {
        separator: ".".to_string(),
        build: 1,
        maven: format!("net.fabricmc:fabric-loader:{}", v),
        version: v.to_string(),
        stable,
    };
    let r = latest_stable(vec![l("0.16.0", false), l("0.15.11", true)]).unwrap();
    assert_eq!(r.version, "0.15.11");
}
