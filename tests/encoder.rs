use etiquetas::config::{Dialect, PrinterConfig};
use etiquetas::encoder::{
    encode_label_batch, encode_text_label, label_x_offsets, text_is_plain, LabelData,
    LABEL_GAP, LABEL_MARGIN, LABEL_WIDTH,
};
use etiquetas::error::PrinterError;

fn label(name: &str, code: &str, barcode: &str) -> LabelData {
    LabelData {
        company: "ESTRELA METAIS".to_string(),
        name_short: name.to_string(),
        product_code: code.to_string(),
        barcode: barcode.to_string(),
    }
}

fn lines(bytes: &[u8]) -> Vec<String> {
    let text = String::from_utf8(bytes.to_vec()).unwrap();
    assert!(text.ends_with("\r\n"));
    text.split("\r\n").filter(|l| !l.is_empty()).map(|l| l.to_string()).collect()
}

#[test]
fn offsets_are_fixed_and_increasing() {
    let a = label_x_offsets(LABEL_MARGIN, LABEL_WIDTH, LABEL_GAP);
    let b = label_x_offsets(LABEL_MARGIN, LABEL_WIDTH, LABEL_GAP);
    assert_eq!(a, (12, 292, 572));
    assert_eq!(a, b);
    assert!(a.0 < a.1 && a.1 < a.2);
    assert_eq!(label_x_offsets(0, 10, 0), (0, 10, 20));
}

#[test]
fn default_config() {
    let c = PrinterConfig::default();
    assert_eq!((c.darkness, c.width, c.height, c.speed), (8, 840, 176, 2));
    assert_eq!(c.port, "Windows");
    assert_eq!(c.selected_printer, None);
}

#[test]
fn ppla_stream_of_one_label() {
    let labels = vec![Some(label("PARAF 3/8", "A12", "7898465810011"))];
    let out = encode_label_batch(Dialect::Ppla, &PrinterConfig::default(), &labels).unwrap();
    let expected = "N\r\nZN\r\nq840\r\nQ176,25\r\nO\r\nJF\r\nZ0\r\n\
        A17,15,0,3,1,1,N,\"ESTRELA METAIS\"\r\n\
        A17,45,0,2,1,1,N,\"PARAF 3/8\"\r\n\
        A17,70,0,2,1,1,N,\"A12\"\r\n\
        B17,95,0,1,2,6,45,B,\"7898465810011\"\r\n\
        P1\r\n";
    assert_eq!(String::from_utf8(out).unwrap(), expected);
}

#[test]
fn pplb_stream_of_three_labels() {
    let mut config = PrinterConfig::default();
    config.width = 840;
    config.height = 176;
    let labels = vec![
        Some(label("PARAF", "A1", "7898465810011")),
        Some(label("PORCA", "A2", "7898465810028")),
        Some(label("ARRUELA", "A3", "7898465810035")),
    ];
    let out = encode_label_batch(Dialect::Pplb, &config, &labels).unwrap();
    let ls = lines(&out);
    assert_eq!(ls.iter().filter(|l| l.as_str() == "N").count(), 1);
    assert_eq!(ls.iter().filter(|l| l.starts_with('P')).count(), 1);
    assert_eq!(ls.last().unwrap(), "P1");
    assert_eq!(&ls[..5], &["N", "Q176,24", "q840", "S2", "D8"]);
    let short_name_x: Vec<u32> = ls
        .iter()
        .filter(|l| l.starts_with('A'))
        .filter(|l| l.split(',').nth(1) == Some("45"))
        .map(|l| l[1..].split(',').next().unwrap().parse().unwrap())
        .collect();
    assert_eq!(short_name_x, vec![17, 297, 577]);
    assert!(short_name_x[0] < short_name_x[1] && short_name_x[1] < short_name_x[2]);
}

#[test]
fn empty_slot_leaves_room() {
    let labels = vec![None, Some(label("PORCA", "A2", "7898465810028"))];
    let out = encode_label_batch(Dialect::Ppla, &PrinterConfig::default(), &labels).unwrap();
    let ls = lines(&out);
    assert!(ls.contains(&"A297,45,0,2,1,1,N,\"PORCA\"".to_string()));
    assert!(!ls.iter().any(|l| l.starts_with("A17,")));
}

#[test]
fn batch_refuses_quotes_and_control_characters() {
    let c = PrinterConfig::default();
    let quoted = vec![Some(label("ESTRELA \"OK\"", "A1", "7898465810011"))];
    assert_eq!(encode_label_batch(Dialect::Ppla, &c, &quoted), Err(PrinterError::InvalidInput));
    let newline = vec![Some(label("A\r\nP9", "A1", "7898465810011"))];
    assert_eq!(encode_label_batch(Dialect::Pplb, &c, &newline), Err(PrinterError::InvalidInput));
    assert!(text_is_plain("PARAFUSO ÇÃO 3/8"));
    assert!(!text_is_plain("a\"b"));
    assert!(!text_is_plain("a\u{7f}"));
}

#[test]
fn batch_size_and_settings_limits() {
    let c = PrinterConfig::default();
    let one = Some(label("X", "A1", "7898465810011"));
    assert_eq!(encode_label_batch(Dialect::Ppla, &c, &vec![]), Err(PrinterError::InvalidInput));
    let four = vec![one.clone(), one.clone(), one.clone(), one.clone()];
    assert_eq!(encode_label_batch(Dialect::Ppla, &c, &four), Err(PrinterError::InvalidInput));
    let mut dark = c.clone();
    dark.darkness = 16;
    assert_eq!(encode_label_batch(Dialect::Pplb, &dark, &vec![one.clone()]), Err(PrinterError::InvalidInput));
    let mut slow = c.clone();
    slow.speed = 0;
    assert_eq!(encode_text_label(&slow, "x"), Err(PrinterError::InvalidInput));
}

#[test]
fn text_label_stream() {
    let mut c = PrinterConfig::default();
    c.width = 400;
    c.height = 240;
    let out = encode_text_label(&c, "Teste").unwrap();
    assert_eq!(
        String::from_utf8(out).unwrap(),
        "Q240,24\r\nq400\r\nS2\r\nD8\r\nZT\r\nA50,50,0,3,1,1,N,\"Teste\"\r\nP1\r\n"
    );
}
