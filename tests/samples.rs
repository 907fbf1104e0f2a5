use etiquetas::error::PrinterError;
use etiquetas::samples::{captured_ppla, connection_probe, format_sample, test_page};

#[test]
fn probe_and_test_page() {
    assert_eq!(connection_probe(), b"N\r\nGW620,215,13,32\r\nP1\r\n".to_vec());
    let page = String::from_utf8(test_page()).unwrap();
    assert!(page.starts_with("N\r\nGW620,215,13,32\r\nZN\r\nq822\r\n"));
    assert!(page.contains("\x1BKIZZQ0\r\n"));
    assert!(page.ends_with("B50,150,1,1,3,7,100,B,\"123456789012\"\r\nP1\r\n"));
}

#[test]
fn samples_by_name() {
    let pplb = format_sample("pplb").unwrap();
    assert!(pplb.starts_with(b"N\r\nq840\r\nQ176,24\r\nD8\r\nS2\r\n"));
    let zpl = format_sample("zpl").unwrap();
    assert!(zpl.starts_with(b"^XA\n") && zpl.ends_with(b"^XZ"));
    let text = String::from_utf8(format_sample("text").unwrap()).unwrap();
    assert!(text.starts_with("TESTE DE IMPRESSÃO\r\n"));
    assert!(format_sample("ppla").unwrap().ends_with(b"P1\r\n"));
    assert_eq!(format_sample("epl"), Err(PrinterError::InvalidInput));
    assert_eq!(format_sample("PPLA"), Err(PrinterError::InvalidInput));
}

#[test]
fn captured_stream() {
    let c = captured_ppla();
    assert_eq!(c.len(), 32);
    assert_eq!(&c[..3], b"N\r\n");
    assert_eq!(c[31], 0xCF);
}
