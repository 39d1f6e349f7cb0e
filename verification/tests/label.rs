use cpufreq_applet::label::{prettify_label, push_word};

#[test]
fn labels() {
    assert_eq!(prettify_label("balance_performance"), "Balance Performance");
    assert_eq!(prettify_label("powersave"), "Powersave");
    assert_eq!(prettify_label(""), "");
    assert_eq!(prettify_label("_"), " ");
    assert_eq!(prettify_label("a__b"), "A  B");
    assert_eq!(prettify_label("_x_"), " X ");
    assert_eq!(prettify_label("4k_mode"), "4k Mode");
    assert_eq!(prettify_label("ALREADY Up"), "ALREADY Up");
}

#[test]
fn labels_beyond_ascii() {
    assert_eq!(prettify_label("ßeta_éco"), "SSeta Éco");
    assert_eq!(prettify_label("mode_ŉ"), "Mode ʼN");
}

#[test]
fn words_with_an_initial() {
    let mut out = "x".to_string();
    push_word(&mut out, "SS", &['ß', 'a']);
    assert_eq!(out, "xSSa");
}
