use step_render::from_xml;

#[test]
fn sanitize_test() {
    let xml = r#"
        <Step id="75" name="Schreibe Änderung Datens./Abfrage" enable="True">
            <Options>384</Options>
            <ParameterValues membercount="3">
                <Parameter type="Boolean">
                    <Boolean type="Dateneingabeüberprüfung unterdrücken" id="256" value="False"></Boolean>
                </Parameter>
                <Parameter type="Boolean">
                    <Boolean type="Mit Dialog" id="128" value="False"></Boolean>
                </Parameter>
                <Parameter type="Boolean">
                    <Boolean type="Schreiben erzwingen" id="512" value="False"></Boolean>
                </Parameter>
            </ParameterValues>
        </Step>
    "#;

    let expected_output = Some("Schreibe Änderung Datens./Abfrage [ Mit Dialog: OFF ]".to_string());
    let script_id: u32 = 75;
    assert_eq!(from_xml(&script_id, xml.trim()), expected_output);
}

#[test]
fn test_force() {
    let xml = r#"
        <Step id="75" name="Schreibe Änderung Datens./Abfrage" enable="True">
            <Options>384</Options>
            <ParameterValues membercount="3">
                <Parameter type="Boolean">
                    <Boolean type="Dateneingabeüberprüfung unterdrücken" id="256" value="False"></Boolean>
                </Parameter>
                <Parameter type="Boolean">
                    <Boolean type="Mit Dialog" id="128" value="False"></Boolean>
                </Parameter>
                <Parameter type="Boolean">
                    <Boolean type="Schreiben erzwingen" id="512" value="True"></Boolean>
                </Parameter>
            </ParameterValues>
        </Step>
    "#;

    let expected_output = Some(
        "Schreibe Änderung Datens./Abfrage [ Mit Dialog: OFF ; Schreiben erzwingen ]".to_string(),
    );
    let script_id: u32 = 75;
    assert_eq!(from_xml(&script_id, xml.trim()), expected_output);
}

#[test]
fn test_suppress_validate() {
    let xml = r#"
        <Step id="75" name="Schreibe Änderung Datens./Abfrage" enable="True">
            <Options>384</Options>
            <ParameterValues membercount="3">
                <Parameter type="Boolean">
                    <Boolean type="Dateneingabeüberprüfung unterdrücken" id="256" value="True"></Boolean>
                </Parameter>
                <Parameter type="Boolean">
                    <Boolean type="Mit Dialog" id="128" value="False"></Boolean>
                </Parameter>
                <Parameter type="Boolean">
                    <Boolean type="Schreiben erzwingen" id="512" value="False"></Boolean>
                </Parameter>
            </ParameterValues>
        </Step>
    "#;

    let expected_output = Some(
        "Schreibe Änderung Datens./Abfrage [ Dateneingabeüberprüfung unterdrücken ; Mit Dialog: OFF ]"
            .to_string(),
    );
    let script_id: u32 = 75;
    assert_eq!(from_xml(&script_id, xml.trim()), expected_output);
}

#[test]
fn test_all_options() {
    let xml = r#"
        <Step id="75" name="Schreibe Änderung Datens./Abfrage" enable="True">
            <Options>384</Options>
            <ParameterValues membercount="3">
                <Parameter type="Boolean">
                    <Boolean type="Dateneingabeüberprüfung unterdrücken" id="256" value="True"></Boolean>
                </Parameter>
                <Parameter type="Boolean">
                    <Boolean type="Mit Dialog" id="128" value="True"></Boolean>
                </Parameter>
                <Parameter type="Boolean">
                    <Boolean type="Schreiben erzwingen" id="512" value="True"></Boolean>
                </Parameter>
            </ParameterValues>
        </Step>
    "#;

    let expected_output = Some(
        "Schreibe Änderung Datens./Abfrage [ Dateneingabeüberprüfung unterdrücken ; Mit Dialog: ON ; Schreiben erzwingen ]"
            .to_string(),
    );
    let script_id: u32 = 75;
    assert_eq!(from_xml(&script_id, xml.trim()), expected_output);
}
