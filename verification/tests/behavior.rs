use step_render::classify::{classify, StepKind, COMMENT_STEP_ID};
use step_render::events::XmlEvent;
use step_render::from_xml;
use step_render::render::render_from_events;

#[test]
fn comment_with_fragment_renders_hash_line() {
    let xml = r#"
        <Step id="89" name="Kommentar" enable="True">
            <ParameterValues membercount="1">
                <Parameter type="Boolean">
                    <Boolean id="1" value="True"></Boolean>
                </Parameter>
            </ParameterValues>
        </Step>
    "#;

    let script_id: u32 = 89;
    assert_eq!(from_xml(&script_id, xml.trim()), Some("# ON".to_string()));
}

#[test]
fn comment_without_fragments_renders_empty() {
    let xml = r#"<Step id="89" name="Kommentar" enable="True"></Step>"#;

    let script_id: u32 = 89;
    assert_eq!(from_xml(&script_id, xml.trim()), Some("".to_string()));
}

#[test]
fn generic_without_name_is_malformed() {
    let xml = r#"<Step id="5" enable="True"></Step>"#;

    let script_id: u32 = 5;
    assert_eq!(from_xml(&script_id, xml.trim()), None);
}

#[test]
fn empty_input_is_malformed_for_generic() {
    let script_id: u32 = 79;
    assert_eq!(from_xml(&script_id, ""), None);
}

#[test]
fn structural_error_is_malformed() {
    let xml = r#"<Step id="79" name="Fenster fixieren">&broken"#;

    let script_id: u32 = 79;
    assert_eq!(from_xml(&script_id, xml), None);
}

#[test]
fn unknown_parameter_type_is_omitted() {
    let xml = r#"
        <Step id="12" name="Irgendwas" enable="True">
            <ParameterValues membercount="1">
                <Parameter type="Calculation">
                    <Calculation datatype="1"></Calculation>
                </Parameter>
            </ParameterValues>
        </Step>
    "#;

    let script_id: u32 = 12;
    assert_eq!(from_xml(&script_id, xml.trim()), Some("Irgendwas".to_string()));
}

#[test]
fn boolean_without_value_is_omitted() {
    let xml = r#"
        <Step id="12" name="Irgendwas" enable="True">
            <ParameterValues membercount="1">
                <Parameter type="Boolean">
                    <Boolean id="1"></Boolean>
                </Parameter>
            </ParameterValues>
        </Step>
    "#;

    let script_id: u32 = 12;
    assert_eq!(from_xml(&script_id, xml.trim()), Some("Irgendwas".to_string()));
}

#[test]
fn boolean_with_unreadable_value_is_omitted() {
    let xml = r#"
        <Step id="12" name="Irgendwas" enable="True">
            <ParameterValues membercount="1">
                <Parameter type="Boolean">
                    <Boolean id="1" value="Wahr"></Boolean>
                </Parameter>
            </ParameterValues>
        </Step>
    "#;

    let script_id: u32 = 12;
    assert_eq!(from_xml(&script_id, xml.trim()), Some("Irgendwas".to_string()));
}

#[test]
fn lone_false_flag_renders_bare_name() {
    let xml = r#"
        <Step id="75" name="Schreibe" enable="True">
            <ParameterValues membercount="1">
                <Parameter type="Boolean">
                    <Boolean type="Schreiben erzwingen" id="512" value="False"></Boolean>
                </Parameter>
            </ParameterValues>
        </Step>
    "#;

    let script_id: u32 = 75;
    assert_eq!(from_xml(&script_id, xml.trim()), Some("Schreibe".to_string()));
}

#[test]
fn empty_parameter_block_renders_bare_name() {
    let xml = r#"
        <Step id="7" name="Nur Name" enable="True">
            <ParameterValues membercount="0"></ParameterValues>
        </Step>
    "#;

    let script_id: u32 = 7;
    assert_eq!(from_xml(&script_id, xml.trim()), Some("Nur Name".to_string()));
}

#[test]
fn unknown_label_defaults_to_labeled_toggle() {
    let xml = r#"
        <Step id="12" name="Irgendwas" enable="True">
            <ParameterValues membercount="1">
                <Parameter type="Boolean">
                    <Boolean type="Blinker" id="2" value="True"></Boolean>
                </Parameter>
            </ParameterValues>
        </Step>
    "#;

    let script_id: u32 = 12;
    assert_eq!(from_xml(&script_id, xml.trim()), Some("Irgendwas [ Blinker: ON ]".to_string()));
}

#[test]
fn fragment_order_spans_parameter_blocks() {
    let xml = r#"
        <Step id="12" name="Zweifach" enable="True">
            <ParameterValues membercount="1">
                <Parameter type="Boolean">
                    <Boolean id="1" value="True"></Boolean>
                </Parameter>
            </ParameterValues>
            <ParameterValues membercount="1">
                <Parameter type="List">
                    <List name="Liste" value="3"></List>
                </Parameter>
            </ParameterValues>
        </Step>
    "#;

    let script_id: u32 = 12;
    assert_eq!(from_xml(&script_id, xml.trim()), Some("Zweifach [ ON ; Liste ]".to_string()));
}

#[test]
fn step_name_is_unescaped() {
    let xml = r#"<Step id="79" name="Kopf &amp; Zahl" enable="True"></Step>"#;

    let script_id: u32 = 79;
    assert_eq!(from_xml(&script_id, xml), Some("Kopf & Zahl".to_string()));
}

#[test]
fn classify_maps_only_the_comment_id() {
    assert_eq!(classify(COMMENT_STEP_ID), StepKind::Comment);
    assert_eq!(classify(0), StepKind::Generic);
    assert_eq!(classify(79), StepKind::Generic);
    assert_eq!(classify(u32::MAX), StepKind::Generic);
}

#[test]
fn render_from_events_matches_the_scanner() {
    let events = vec![
        XmlEvent::Open(
            "Step".to_string(),
            vec![("name".to_string(), "Direkt".to_string())],
        ),
        XmlEvent::Open("ParameterValues".to_string(), vec![]),
        XmlEvent::Open("Parameter".to_string(), vec![("type".to_string(), "Boolean".to_string())]),
        XmlEvent::Open("Boolean".to_string(), vec![("value".to_string(), "True".to_string())]),
        XmlEvent::Close("Boolean".to_string()),
        XmlEvent::Close("Parameter".to_string()),
        XmlEvent::Close("ParameterValues".to_string()),
        XmlEvent::Close("Step".to_string()),
        XmlEvent::Eof,
    ];
    assert_eq!(render_from_events(12, &events), Some("Direkt [ ON ]".to_string()));
}

#[test]
fn render_from_events_rejects_broken_stream() {
    let events = vec![
        XmlEvent::Open(
            "Step".to_string(),
            vec![("name".to_string(), "Direkt".to_string())],
        ),
        XmlEvent::Broken,
    ];
    assert_eq!(render_from_events(12, &events), None);
}

#[test]
fn parameter_outside_block_is_ignored() {
    let events = vec![
        XmlEvent::Open(
            "Step".to_string(),
            vec![("name".to_string(), "Lose".to_string())],
        ),
        XmlEvent::Open("Parameter".to_string(), vec![("type".to_string(), "Boolean".to_string())]),
        XmlEvent::Open("Boolean".to_string(), vec![("value".to_string(), "True".to_string())]),
        XmlEvent::Eof,
    ];
    assert_eq!(render_from_events(12, &events), Some("Lose".to_string()));
}
