use etiquetas::error::PrinterError;
use etiquetas::spooler::SpoolStep::{
    ClosePrinter, EndDoc, EndPage, OpenPrinter, StartDoc, StartPage, WriteData,
};
use etiquetas::spooler::{spool_first_step, spool_next, SpoolStep};
use etiquetas::transport::{
    find_printer_device, known_printers, list_windows_printers_silent, printer_device_positions,
    same_text, select_endpoints, select_printer, select_printer_or_first, EndpointDirection,
    EndpointInfo, UsbDeviceId, UsbEndpoints,
};

fn id(v: u16, p: u16) -> UsbDeviceId {
    UsbDeviceId { vendor_id: v, product_id: p }
}

fn ep(address: u8, direction: EndpointDirection, is_bulk: bool) -> EndpointInfo {
    EndpointInfo { address, direction, is_bulk }
}

fn names(v: &[&str]) -> Vec<String> {
    v.iter().map(|s| s.to_string()).collect()
}

#[test]
fn finds_first_known_device() {
    let known = known_printers();
    assert_eq!(known, vec![id(0x1CBE, 0x0002)]);
    let devices = vec![id(0x046D, 0xC077), id(0x1CBE, 0x0002), id(0x1CBE, 0x0002)];
    assert_eq!(find_printer_device(&devices, &known), Ok(1));
    assert_eq!(printer_device_positions(&devices, &known), vec![1, 2]);
}

#[test]
fn checks_every_known_pair() {
    let known = vec![id(0x1CBE, 0x0002), id(0x1664, 0x0015)];
    let devices = vec![id(0x1CBE, 0x0003), id(0x1664, 0x0015)];
    assert_eq!(find_printer_device(&devices, &known), Ok(1));
}

#[test]
fn no_matching_device() {
    let known = known_printers();
    let devices = vec![id(0x046D, 0xC077), id(0x1CBE, 0x0003)];
    assert_eq!(find_printer_device(&devices, &known), Err(PrinterError::DeviceNotFound));
    assert_eq!(find_printer_device(&vec![], &known), Err(PrinterError::DeviceNotFound));
    assert!(printer_device_positions(&devices, &known).is_empty());
}

#[test]
fn picks_bulk_endpoints() {
    let eps = vec![
        ep(0x83, EndpointDirection::In, false),
        ep(0x01, EndpointDirection::Out, true),
        ep(0x82, EndpointDirection::In, true),
    ];
    assert_eq!(select_endpoints(&eps), Ok(UsbEndpoints { endpoint_out: 0x01, endpoint_in: 0x82 }));
    let twice = vec![
        ep(0x01, EndpointDirection::Out, true),
        ep(0x81, EndpointDirection::In, true),
        ep(0x02, EndpointDirection::Out, true),
    ];
    assert_eq!(select_endpoints(&twice), Ok(UsbEndpoints { endpoint_out: 0x02, endpoint_in: 0x81 }));
}

#[test]
fn missing_endpoint() {
    let only_out = vec![ep(0x01, EndpointDirection::Out, true), ep(0x81, EndpointDirection::In, false)];
    assert_eq!(select_endpoints(&only_out), Err(PrinterError::EndpointNotFound));
    assert_eq!(select_endpoints(&vec![]), Err(PrinterError::EndpointNotFound));
}

#[test]
fn spooler_names_without_empty_ones() {
    let raw = names(&["Argox OS-2140 PPLA", "", "Microsoft Print to PDF"]);
    assert_eq!(
        list_windows_printers_silent(&raw),
        names(&["Argox OS-2140 PPLA", "Microsoft Print to PDF"])
    );
    assert!(list_windows_printers_silent(&vec![]).is_empty());
}

#[test]
fn strict_printer_choice() {
    let avail = names(&["Argox", "PDF"]);
    assert_eq!(select_printer(&avail, None), Ok("Argox".to_string()));
    assert_eq!(select_printer(&avail, Some("PDF")), Ok("PDF".to_string()));
    assert_eq!(select_printer(&avail, Some("Zebra")), Err(PrinterError::DeviceNotFound));
    assert_eq!(select_printer(&vec![], None), Err(PrinterError::DeviceNotFound));
}

#[test]
fn lenient_printer_choice() {
    let avail = names(&["Argox", "PDF"]);
    assert_eq!(select_printer_or_first(&avail, Some("PDF")), Ok("PDF".to_string()));
    assert_eq!(select_printer_or_first(&avail, Some("Zebra")), Ok("Argox".to_string()));
    assert_eq!(select_printer_or_first(&avail, None), Ok("Argox".to_string()));
    assert_eq!(select_printer_or_first(&vec![], Some("PDF")), Err(PrinterError::DeviceNotFound));
}

#[test]
fn text_comparison() {
    assert!(same_text("Argox", "Argox"));
    assert!(!same_text("Argox", "argox"));
    assert!(!same_text("Argox", "Argox "));
}

fn run(fail: Option<SpoolStep>) -> Vec<SpoolStep> {
    let mut steps = Vec::new();
    let mut step = spool_first_step();
    loop {
        steps.push(step);
        match spool_next(step, Some(step) != fail) {
            Some(s) => step = s,
            None => break,
        }
    }
    steps
}

#[test]
fn spool_job_in_order() {
    assert_eq!(run(None), vec![OpenPrinter, StartDoc, StartPage, WriteData, EndPage, EndDoc, ClosePrinter]);
}

#[test]
fn spool_failure_releases_what_was_acquired() {
    assert_eq!(run(Some(OpenPrinter)), vec![OpenPrinter]);
    assert_eq!(run(Some(StartDoc)), vec![OpenPrinter, StartDoc, ClosePrinter]);
    assert_eq!(run(Some(StartPage)), vec![OpenPrinter, StartDoc, StartPage, EndDoc, ClosePrinter]);
    assert_eq!(
        run(Some(WriteData)),
        vec![OpenPrinter, StartDoc, StartPage, WriteData, EndPage, EndDoc, ClosePrinter]
    );
}
