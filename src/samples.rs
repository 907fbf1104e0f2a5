//! Fixed command streams for trying a printer out: the spooler test page,
//! the connection probe, one sample per command language, and the start of
//! a stream captured from the vendor's driver.
use crate::encoder::push_str;
use crate::error::PrinterError;
use crate::transport::same_text;
use vstd::prelude::*;
use vstd::string::StringSliceAdditionalSpecFns;

verus! {

/// A test page: two lines of text and a barcode.
pub open spec fn test_page_bytes() -> Seq<u8> {
    "N\r\nGW620,215,13,32\r\nZN\r\nq822\r\nO\r\nJF\r\n\x1BKIZZQ0\r\n\x1BKI9+0.0\r\nZT\r\nQ1218,25\r\nA50,50,0,3,1,1,N,\"TESTE DE IMPRESSAO\"\r\nA50,100,0,3,1,1,N,\"ARGOX OS-2140\"\r\nB50,150,1,1,3,7,100,B,\"123456789012\"\r\nP1\r\n".spec_bytes()
}

/// The short job that shows that a queue reaches the printer.
pub open spec fn probe_bytes() -> Seq<u8> {
    "N\r\nGW620,215,13,32\r\nP1\r\n".spec_bytes()
}

/// The sample stream of each command language that can be tried by name.
pub open spec fn format_sample_bytes(name: Seq<char>) -> Option<Seq<u8>> {
    if name == "ppla"@ {
        Some("N\r\nGW620,215,13,32\r\nA50,50,0,3,1,1,N,\"TESTE PPLA\"\r\nB50,100,1,1,3,7,100,B,\"123456789012\"\r\nP1\r\n".spec_bytes())
    } else if name == "pplb"@ {
        Some("N\r\nq840\r\nQ176,24\r\nD8\r\nS2\r\nA50,50,0,3,1,1,\"Teste PPLB\"\r\nB50,100,2,2,60,0,1,\"123456789012\"\r\nP1\r\n".spec_bytes())
    } else if name == "zpl"@ {
        Some("^XA\n^FO50,50^A0N,50,50^FDTeste ZPL^FS\n^FO50,120^BY3^BCN,100,Y,N,N\n^FD123456789012^FS\n^XZ".spec_bytes())
    } else if name == "text"@ {
        Some("TESTE DE IMPRESSÃO\r\nLinha 1\r\nLinha 2\r\n\r\n\r\n".spec_bytes())
    } else {
        None
    }
}

/// The first 32 bytes of a stream captured from the vendor's driver.
pub open spec fn captured_ppla_bytes() -> Seq<u8> {
    seq![
        0x4Eu8, 0x0D, 0x0A, 0x47, 0x57, 0x36, 0x32, 0x30, 0x2C, 0x32, 0x31, 0x35, 0x2C, 0x31,
        0x33, 0x2C, 0x33, 0x32, 0x2C, 0xF8, 0x1F, 0x98, 0x7F, 0xFE, 0x07, 0xF3, 0xE7, 0xCF,
        0xC0, 0xFC, 0x7F, 0xCF,
    ]
}

fn bytes_of(s: &str) -> (r: Vec<u8>)
    ensures
        r@ == s.spec_bytes(),
{
    let mut v: Vec<u8> = Vec::new();
    push_str(&mut v, s);
    assert(v@ =~= s.spec_bytes());
    v
}

/// The test page that the spooler path prints.
pub fn test_page() -> (r: Vec<u8>)
    ensures
        r@ == test_page_bytes(),
{
    bytes_of("N\r\nGW620,215,13,32\r\nZN\r\nq822\r\nO\r\nJF\r\n\x1BKIZZQ0\r\n\x1BKI9+0.0\r\nZT\r\nQ1218,25\r\nA50,50,0,3,1,1,N,\"TESTE DE IMPRESSAO\"\r\nA50,100,0,3,1,1,N,\"ARGOX OS-2140\"\r\nB50,150,1,1,3,7,100,B,\"123456789012\"\r\nP1\r\n")
}

/// The probe job of a connection test.
pub fn connection_probe() -> (r: Vec<u8>)
    ensures
        r@ == probe_bytes(),
{
    bytes_of("N\r\nGW620,215,13,32\r\nP1\r\n")
}

/// The sample stream of the command language `format_type` ("ppla",
/// "pplb", "zpl" or "text"); `InvalidInput` for any other name.
pub fn format_sample(format_type: &str) -> (r: Result<Vec<u8>, PrinterError>)
    ensures
        format_sample_bytes(format_type@) is Some ==> r is Ok && r->Ok_0@ == format_sample_bytes(
            format_type@,
        )->Some_0,
        format_sample_bytes(format_type@) is None ==> r == Err::<Vec<u8>, PrinterError>(
            PrinterError::InvalidInput,
        ),
{
    if same_text(format_type, "ppla") {
        Ok(bytes_of("N\r\nGW620,215,13,32\r\nA50,50,0,3,1,1,N,\"TESTE PPLA\"\r\nB50,100,1,1,3,7,100,B,\"123456789012\"\r\nP1\r\n"))
    } else if same_text(format_type, "pplb") {
        Ok(bytes_of("N\r\nq840\r\nQ176,24\r\nD8\r\nS2\r\nA50,50,0,3,1,1,\"Teste PPLB\"\r\nB50,100,2,2,60,0,1,\"123456789012\"\r\nP1\r\n"))
    } else if same_text(format_type, "zpl") {
        Ok(bytes_of("^XA\n^FO50,50^A0N,50,50^FDTeste ZPL^FS\n^FO50,120^BY3^BCN,100,Y,N,N\n^FD123456789012^FS\n^XZ"))
    } else if same_text(format_type, "text") {
        Ok(bytes_of("TESTE DE IMPRESSÃO\r\nLinha 1\r\nLinha 2\r\n\r\n\r\n"))
    } else {
        Err(PrinterError::InvalidInput)
    }
}

/// The start of a stream captured from the vendor's driver, sent as it is.
pub fn captured_ppla() -> (r: Vec<u8>)
    ensures
        r@ == captured_ppla_bytes(),
{
    let r: Vec<u8> = vec![
        0x4Eu8, 0x0D, 0x0A, 0x47, 0x57, 0x36, 0x32, 0x30, 0x2C, 0x32, 0x31, 0x35, 0x2C, 0x31,
        0x33, 0x2C, 0x33, 0x32, 0x2C, 0xF8, 0x1F, 0x98, 0x7F, 0xFE, 0x07, 0xF3, 0xE7, 0xCF,
        0xC0, 0xFC, 0x7F, 0xCF,
    ];
    assert(r@ =~= captured_ppla_bytes());
    r
}

} // verus!
