use print_layout::paper::PaperSize;
use print_layout::printing::{
    build_print_args, get_default_printer, media_option, parse_job_id, parse_lpoptions_output,
    parse_lpstat_output, printer_exists, PrintError, PrinterInfo, PrinterState,
};

fn lines(texts: &[&str]) -> Vec<String> {
    texts.iter().map(|t| String::from(*t)).collect()
}

#[test]
fn test_parse_lpstat_output() {
    let captured = lines(&[
        "system default destination: office",
        "printer office is idle.  enabled since Mon",
        "printer lab is processing jobs",
        "printer attic disabled stopped",
        "some unrelated line",
    ]);
    let printers = parse_lpstat_output(&captured);
    assert_eq!(printers.len(), 3);
    assert_eq!(printers[0].name, "office");
    assert!(printers[0].is_default);
    assert_eq!(printers[0].state, PrinterState::Idle);
    assert_eq!(printers[0].description, "idle.  enabled since Mon");
    assert_eq!(printers[1].name, "lab");
    assert!(!printers[1].is_default);
    assert_eq!(printers[1].state, PrinterState::Processing);
    // A line without " is " keeps the name as its description.
    assert_eq!(printers[2].name, "attic");
    assert_eq!(printers[2].state, PrinterState::Stopped);
    assert_eq!(printers[2].description, "attic");
}

#[test]
fn test_parse_lpstat_empty_and_no_default() {
    assert_eq!(parse_lpstat_output(&lines(&[])).len(), 0);
    let printers = parse_lpstat_output(&lines(&["printer solo ready"]));
    assert_eq!(printers.len(), 1);
    assert!(!printers[0].is_default);
    assert_eq!(printers[0].state, PrinterState::Unknown);
}

#[test]
fn test_parse_lpoptions_output() {
    let name = String::from("office");
    let captured = lines(&[
        "PageSize/Media Size: A4 *Letter Legal",
        "InputSlot/Media Source: *Auto Tray1",
        "OptionWithoutDisplay: a b",
        "line without a separator",
    ]);
    let caps = parse_lpoptions_output(&name, &captured);
    assert_eq!(caps.printer_name, "office");
    assert_eq!(caps.options.len(), 3);

    let sizes_name = String::from("PageSize");
    let sizes = caps.get_option(&sizes_name).unwrap();
    assert_eq!(sizes.display_name, "Media Size");
    assert_eq!(sizes.values.len(), 3);
    assert_eq!(sizes.values[0].value, "A4");
    assert!(!sizes.values[0].is_default);
    assert_eq!(sizes.values[1].value, "Letter");
    assert!(sizes.values[1].is_default);
    assert_eq!(sizes.default_index, Some(1));
    assert_eq!(sizes.default_value(), Some("Letter"));
    assert_eq!(sizes.current_value(), Some("Letter"));

    let slot = caps.input_slot().unwrap();
    assert_eq!(slot.default_value(), Some("Auto"));
    assert!(caps.media_type().is_none());
    assert!(caps.color_model().is_none());
    assert!(caps.print_quality().is_none());
    assert!(caps.page_sizes().is_some());

    let plain = caps.options[2].clone();
    assert_eq!(plain.name, "OptionWithoutDisplay");
    assert_eq!(plain.display_name, "OptionWithoutDisplay");
    assert_eq!(plain.default_index, None);
    assert_eq!(plain.default_value(), None);
    assert_eq!(plain.current_value(), None);
}

#[test]
fn test_get_default_printer_and_exists() {
    let printers = vec![
        PrinterInfo {
            name: String::from("a"),
            description: String::from("a"),
            is_default: false,
            state: PrinterState::Idle,
        },
        PrinterInfo {
            name: String::from("b"),
            description: String::from("b"),
            is_default: true,
            state: PrinterState::Idle,
        },
    ];
    assert_eq!(get_default_printer(&printers).unwrap().name, "b");
    assert!(printer_exists(&printers, &String::from("a")));
    assert!(!printer_exists(&printers, &String::from("c")));
    let none: Vec<PrinterInfo> = Vec::new();
    assert!(get_default_printer(&none).is_none());
}

#[test]
fn test_media_option() {
    assert_eq!(media_option(PaperSize::A4), "media=A4");
    assert_eq!(media_option(PaperSize::Letter), "media=Letter");
    assert_eq!(media_option(PaperSize::Photo4x6), "media=4x6");
    // Sizes the spooler does not know fall back to A4.
    assert_eq!(media_option(PaperSize::A0), "media=A4");
    assert_eq!(media_option(PaperSize::Custom(123000, 456000)), "media=A4");
}

#[test]
fn test_build_print_args() {
    let extra = vec![
        (String::from("InputSlot"), String::from("ByPassTray")),
        (String::from("MediaType"), String::from("Glossy")),
    ];
    let args = build_print_args(
        &String::from("office"),
        3,
        PaperSize::A4,
        &extra,
        &String::from("/tmp/page.png"),
    );
    let expect = [
        "-d",
        "office",
        "-n",
        "3",
        "-o",
        "media=A4",
        "-o",
        "fit-to-page",
        "-o",
        "InputSlot=ByPassTray",
        "-o",
        "MediaType=Glossy",
        "/tmp/page.png",
    ];
    assert_eq!(args.len(), expect.len());
    for (a, e) in args.iter().zip(expect.iter()) {
        assert_eq!(a, e);
    }
}

#[test]
fn test_parse_job_id() {
    // The text after the last dash of the first token starting with
    // "request" is the identifier.
    assert_eq!(parse_job_id(&String::from("sent as request-office-123 ok")), "123");
    assert_eq!(parse_job_id(&String::from("request-without-id-42")), "42");
    // A matching token without a dash is returned whole.
    assert_eq!(parse_job_id(&String::from("request id is office-123 (1 file(s))")), "request");
    assert_eq!(parse_job_id(&String::from("nothing useful here")), "unknown");
    assert_eq!(parse_job_id(&String::from("")), "unknown");
    // The whole captured output may span lines; tokens split on any
    // ASCII whitespace.
    assert_eq!(parse_job_id(&String::from("queued\nrequest-office-7\ndone")), "7");
    assert_eq!(parse_job_id(&String::from("queued\r\nrequest-office-8")), "8");
}

#[test]
fn test_print_error_messages() {
    assert_eq!(PrintError::NoPrinters.message(), "No printers found on system");
    assert_eq!(
        PrintError::PrinterNotFound(String::from("office")).message(),
        "Printer 'office' not found"
    );
    assert_eq!(
        PrintError::PrinterOffline(String::from("lab")).message(),
        "Printer 'lab' is offline"
    );
    assert_eq!(
        PrintError::CupsNotAvailable.message(),
        "CUPS printing system is not available or not running"
    );
    assert_eq!(
        PrintError::CommandFailed(String::from("out of paper")).message(),
        "Print command failed: out of paper"
    );
}
