use ginkou_loader::daemon::{DaemonCommand, EnvVar, SpawnError, Stream, SupervisedProcess, Termination};
use ginkou_loader::Args;

fn args() -> Args {
    Args {
        dev_port: Some(5173),
        html_path: None,
        melwalletd_path: "/usr/bin/melwalletd".to_string(),
        data_path: "/data".to_string(),
        wallet_path: "/wallets".to_string(),
        version_string: None,
        debug_window_open: false,
    }
}

#[test]
fn the_daemon_gets_wallet_directory_token_and_log() {
    let command = DaemonCommand::new(&args(), "c0ffee");
    assert_eq!(
        command,
        DaemonCommand {
            program: "/usr/bin/melwalletd".to_string(),
            arguments: vec!["--wallet-dir".to_string(), "/wallets".to_string()],
            environment: vec![EnvVar { name: "MELWALLETD_AUTH_TOKEN".to_string(), value: "c0ffee".to_string() }],
            stdin: Stream::Closed,
            stdout: Stream::File("/data/melwalletd.log".to_string()),
            stderr: Stream::File("/data/melwalletd.log".to_string()),
        }
    );
}

#[test]
fn supervise_takes_charge_of_a_started_process() {
    assert_eq!(
        SupervisedProcess::supervise("/wallets", "/data/melwalletd.log", Some(4242)),
        Ok(SupervisedProcess {
            id: 4242,
            wallet_dir: "/wallets".to_string(),
            output: "/data/melwalletd.log".to_string(),
            running: true,
        })
    );
}

#[test]
fn supervise_fails_when_nothing_started() {
    assert_eq!(SupervisedProcess::supervise("/wallets", "/data/melwalletd.log", None), Err(SpawnError));
}

#[test]
fn terminate_twice_kills_once_and_never_fails() {
    let mut process = SupervisedProcess::supervise("/wallets", "/data/melwalletd.log", Some(7)).expect("started");
    assert_eq!(process.terminate(), Termination::Kill(7));
    assert!(!process.running);
    let after_first = process.clone();
    assert_eq!(process.terminate(), Termination::Nothing);
    assert_eq!(process, after_first);
    assert_eq!(process.terminate(), Termination::Nothing);
}
