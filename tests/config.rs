use fwto::audk::{AptioV, ConfigError, Resolved, StdOvrd};

fn layer(cif: Option<&[u8]>, dst: Option<&[u8]>, org: Option<&[u8]>) -> StdOvrd {
    StdOvrd { cif: cif.map(|v| v.to_vec()), dst: dst.map(|v| v.to_vec()), org: org.map(|v| v.to_vec()) }
}

#[test]
fn command_line_wins_over_configuration() {
    let opt = layer(Some(b"a.cif"), None, None);
    let cfg = Some(layer(Some(b"b.cif"), Some(b"Dst"), Some(b"Org")));
    let ibv = Some(layer(None, Some(b"Ibv"), None));
    assert_eq!(
        opt.resolve(&cfg, &ibv),
        Ok(Resolved { cif: b"a.cif".to_vec(), dst: b"Dst".to_vec(), org: Some(b"Org".to_vec()), layer: Some(b"Ibv".to_vec()) })
    );
}

#[test]
fn everything_on_command_line() {
    let opt = layer(Some(b"a.cif"), Some(b"D"), Some(b"O"));
    assert_eq!(
        opt.resolve(&None, &None),
        Ok(Resolved { cif: b"a.cif".to_vec(), dst: b"D".to_vec(), org: Some(b"O".to_vec()), layer: None })
    );
}

#[test]
fn missing_settings() {
    let none = layer(None, None, None);
    assert_eq!(none.resolve(&None, &None), Err(ConfigError::NoOemovrd));
    assert_eq!(none.resolve(&Some(layer(None, Some(b"D"), None)), &None), Err(ConfigError::NoCif));
    assert_eq!(none.resolve(&Some(layer(Some(b"c"), None, None)), &None), Err(ConfigError::NoDst));
    let partial = layer(Some(b"c"), Some(b"D"), None);
    assert_eq!(partial.resolve(&None, &None), Err(ConfigError::NoOemovrd));
}

#[test]
fn build_settings_start_empty() {
    let b = AptioV::new();
    assert!(b.project.veb.is_none());
    assert!(b.toolkit.ewdk.is_none() && b.toolkit.tools.is_none() && b.toolkit.pycmd.is_none());
    assert!(b.scripts.is_none());
}
