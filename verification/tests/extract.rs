use target_data_layout::{extract, Error};

fn ok(value: &str) -> Result<String, Error> {
    Ok(value.to_owned())
}

#[test]
fn extracts_the_field_of_a_one_line_document() {
    let output = "{\"data-layout\": \"e-m:e-p:64:64-i64:64-n8:16:32:64-S128\"}";
    assert_eq!(extract(output), ok("e-m:e-p:64:64-i64:64-n8:16:32:64-S128"));
}

#[test]
fn document_without_the_field_is_field_not_found() {
    assert_eq!(extract("{\"arch\":\"x86_64\"}"), Err(Error::FieldNotFound));
}

#[test]
fn empty_output_is_field_not_found() {
    assert_eq!(extract(""), Err(Error::FieldNotFound));
}

#[test]
fn empty_value_is_extracted_as_empty() {
    assert_eq!(extract("{\"data-layout\": \"\"}"), ok(""));
}

#[test]
fn unterminated_value_is_field_not_found() {
    assert_eq!(extract("{\"data-layout\": \"e-m:e-p:64:64"), Err(Error::FieldNotFound));
}

#[test]
fn marker_at_the_very_end_is_field_not_found() {
    assert_eq!(extract("{\"data-layout\": \""), Err(Error::FieldNotFound));
}

#[test]
fn value_is_the_whole_rest_up_to_the_quote() {
    assert_eq!(extract("\"data-layout\": \"x\""), ok("x"));
}

#[test]
fn marker_needs_its_exact_spacing() {
    assert_eq!(extract("{\"data-layout\":\"e-m\"}"), Err(Error::FieldNotFound));
    assert_eq!(extract("{\"data-layout\" : \"e-m\"}"), Err(Error::FieldNotFound));
    assert_eq!(extract("{\"data-layout\":  \"e-m\"}"), Err(Error::FieldNotFound));
}

#[test]
fn marker_needs_its_quotes() {
    assert_eq!(extract("{data-layout: \"e-m\"}"), Err(Error::FieldNotFound));
}

#[test]
fn truncated_marker_is_field_not_found() {
    assert_eq!(extract("{\"data-layout\": "), Err(Error::FieldNotFound));
    assert_eq!(extract("{\"data-layout\""), Err(Error::FieldNotFound));
}

#[test]
fn first_marker_wins() {
    let output = "{\"data-layout\": \"first\", \"data-layout\": \"second\"}";
    assert_eq!(extract(output), ok("first"));
}

#[test]
fn unterminated_first_marker_is_not_rescued_by_anything() {
    assert_eq!(extract("\"data-layout\": \"abc \\\" def"), Err(Error::FieldNotFound));
}

#[test]
fn other_fields_do_not_matter() {
    let output = "{\n  \"arch\": \"x86_64\",\n  \"cpu\": \"x86-64\",\n  \"data-layout\": \"e-m:e-p270:32:32-p271:32:32-p272:64:64-i64:64-i128:128-f80:128-n8:16:32:64-S128\",\n  \"dynamic-linking\": true,\n  \"llvm-target\": \"x86_64-unknown-linux-gnu\",\n  \"max-atomic-width\": 64,\n  \"target-pointer-width\": \"64\"\n}";
    assert_eq!(
        extract(output),
        ok("e-m:e-p270:32:32-p271:32:32-p272:64:64-i64:64-i128:128-f80:128-n8:16:32:64-S128")
    );
}

#[test]
fn text_that_is_no_json_at_all_is_taken() {
    assert_eq!(extract("warning: x\n\"data-layout\": \"e\" trailing ] garbage {"), ok("e"));
}

#[test]
fn escaped_quote_does_not_close_the_value() {
    assert_eq!(extract("{\"data-layout\": \"a\\\"b\"}"), ok("a\\\"b"));
}

#[test]
fn escaped_backslash_does_not_escape_the_quote_behind_it() {
    assert_eq!(extract("{\"data-layout\": \"a\\\\\"}"), ok("a\\\\"));
}

#[test]
fn quote_behind_three_backslashes_is_escaped() {
    assert_eq!(extract("{\"data-layout\": \"a\\\\\\\"b\"}"), ok("a\\\\\\\"b"));
}

#[test]
fn backslash_before_the_last_quote_leaves_the_value_unterminated() {
    assert_eq!(extract("{\"data-layout\": \"a\\\"}"), Err(Error::FieldNotFound));
}

#[test]
fn backslash_before_the_marker_does_not_escape_into_the_value() {
    assert_eq!(extract("\\\"data-layout\": \"\"}"), ok(""));
}

#[test]
fn value_is_not_unescaped() {
    assert_eq!(extract("{\"data-layout\": \"tab\\tnewline\\n\"}"), ok("tab\\tnewline\\n"));
}

#[test]
fn characters_of_several_bytes_are_counted_as_characters() {
    let output = "{\"n\u{e4}me\": \"\u{65e5}\u{672c}\", \"data-layout\": \"\u{e9}-\u{1f600}-e\", \"x\": 1}";
    assert_eq!(extract(output), ok("\u{e9}-\u{1f600}-e"));
}

#[test]
fn long_value_is_extracted_whole() {
    let value = "e-p:64:64-".repeat(2000);
    let output = format!("{{\"data-layout\": \"{}\"}}", value);
    assert_eq!(extract(&output), Ok(value));
}

#[test]
fn value_is_found_wherever_it_is_embedded() {
    for before in ["", "{", "{\"a\": \"b\", ", "\n\n"] {
        for value in ["", "e", "e-m:e-p:64:64", "a\\\\", "\\\"", " "] {
            for after in ["", "}", ", \"z\": \"\"}", "\""] {
                let output = format!("{}\"data-layout\": \"{}\"{}", before, value, after);
                assert_eq!(extract(&output), Ok(value.to_owned()), "in {:?}", output);
            }
        }
    }
}

#[test]
fn text_without_the_marker_never_has_a_field() {
    for output in ["{}", "data-layout", "\"data-layout\"", "\"data_layout\": \"e\"", "\"Data-Layout\": \"e\""] {
        assert_eq!(extract(output), Err(Error::FieldNotFound), "in {:?}", output);
    }
}

#[test]
fn unterminated_value_never_has_a_field() {
    for rest in ["", "e", "e-m:e-p:64:64, \\\"x\\\": 1}", "\\", "abc\\\""] {
        let output = format!("{{\"data-layout\": \"{}", rest);
        assert_eq!(extract(&output), Err(Error::FieldNotFound), "in {:?}", output);
    }
}
