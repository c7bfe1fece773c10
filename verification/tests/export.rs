use ginkou_loader::action::{ExportRequest, FileCopy, LogExport};

fn request() -> ExportRequest {
    ExportRequest {
        start: "~/".to_string(),
        melwalletd_log: "/data/melwalletd.log".to_string(),
        ginkou_log: "/data/ginkou.log".to_string(),
    }
}

#[test]
fn a_declined_picker_exports_nothing() {
    assert_eq!(request().plan(""), None);
}

#[test]
fn a_picked_folder_gets_a_subfolder_with_both_logs() {
    assert_eq!(
        request().plan("/home/alice/Desktop"),
        Some(LogExport {
            folder: "/home/alice/Desktop/mellis_logs".to_string(),
            copies: vec![
                FileCopy {
                    from: "/data/melwalletd.log".to_string(),
                    to: "/home/alice/Desktop/mellis_logs/melwalletd.log".to_string(),
                },
                FileCopy {
                    from: "/data/ginkou.log".to_string(),
                    to: "/home/alice/Desktop/mellis_logs/ginkou.log".to_string(),
                },
            ],
        })
    );
}

#[test]
fn a_picked_folder_may_end_in_a_separator() {
    let export = request().plan("/mnt/usb/").expect("a folder was picked");
    assert_eq!(export.folder, "/mnt/usb/mellis_logs");
    assert_eq!(export.copies[0].to, "/mnt/usb/mellis_logs/melwalletd.log");
    assert_eq!(export.copies[1].to, "/mnt/usb/mellis_logs/ginkou.log");
}
