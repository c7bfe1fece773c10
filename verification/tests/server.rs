use ginkou_loader::server::{AssetSource, BindError, Listener, ServedAddress};
use ginkou_loader::Args;

fn args(dev_port: Option<u32>, html_path: Option<&str>) -> Args {
    Args {
        dev_port,
        html_path: html_path.map(|p| p.to_string()),
        melwalletd_path: "melwalletd".to_string(),
        data_path: "/data".to_string(),
        wallet_path: "/wallets".to_string(),
        version_string: None,
        debug_window_open: false,
    }
}

fn local() -> AssetSource {
    AssetSource::Local { directory: "/opt/ginkou".to_string(), bind: "127.0.0.1:9117".to_string() }
}

#[test]
fn a_development_port_is_an_external_address() {
    assert_eq!(
        AssetSource::from_args(&args(Some(5173), None)),
        Ok(AssetSource::External("http://localhost:5173".to_string()))
    );
    assert_eq!(
        AssetSource::from_args(&args(Some(0), None)),
        Ok(AssetSource::External("http://localhost:0".to_string()))
    );
    assert_eq!(
        AssetSource::from_args(&args(Some(u32::MAX), None)),
        Ok(AssetSource::External("http://localhost:4294967295".to_string()))
    );
}

#[test]
fn a_development_port_wins_over_a_directory() {
    assert_eq!(
        AssetSource::from_args(&args(Some(80), Some("/opt/ginkou"))),
        Ok(AssetSource::External("http://localhost:80".to_string()))
    );
}

#[test]
fn a_directory_is_served_on_the_loopback_port() {
    assert_eq!(AssetSource::from_args(&args(None, Some("/opt/ginkou"))), Ok(local()));
}

#[test]
fn without_port_and_directory_there_is_nothing_to_serve() {
    assert_eq!(AssetSource::from_args(&args(None, None)), Err(BindError::DirectoryMissing));
}

#[test]
fn an_external_address_is_returned_unchanged() {
    let source = AssetSource::External("http://localhost:5173".to_string());
    for listener in [
        Listener::Bound("http://127.0.0.1:9117".to_string()),
        Listener::PortUnavailable,
        Listener::DirectoryMissing,
    ] {
        assert_eq!(
            source.clone().served(listener),
            Ok(ServedAddress { address: "http://localhost:5173".to_string() })
        );
    }
}

#[test]
fn a_local_source_is_served_where_the_listener_says() {
    assert_eq!(
        local().served(Listener::Bound("http://127.0.0.1:9117".to_string())),
        Ok(ServedAddress { address: "http://127.0.0.1:9117".to_string() })
    );
}

#[test]
fn a_local_source_fails_with_the_listener() {
    assert_eq!(local().served(Listener::PortUnavailable), Err(BindError::PortUnavailable));
    assert_eq!(local().served(Listener::DirectoryMissing), Err(BindError::DirectoryMissing));
}

#[test]
fn the_window_loads_index_html() {
    let served = ServedAddress { address: "http://127.0.0.1:9117".to_string() };
    assert_eq!(served.index_url(), "http://127.0.0.1:9117/index.html");
}

#[test]
fn a_listener_reports_its_address_or_its_error() {
    assert_eq!(
        Listener::Bound("http://127.0.0.1:9117".to_string()).address(),
        Ok(ServedAddress { address: "http://127.0.0.1:9117".to_string() })
    );
    assert_eq!(Listener::PortUnavailable.address(), Err(BindError::PortUnavailable));
    assert_eq!(Listener::DirectoryMissing.address(), Err(BindError::DirectoryMissing));
}
