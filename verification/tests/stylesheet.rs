use eplstudents::site::{index, Assets};
use eplstudents::stylesheet::{stylesheet_fits, inline_css, StylesheetError};

const SHEET: &str = r#"
     #some_id, input {
         padding: 5px 3px; /* Mega comment */
         color: white;
     }


     /* this is are test id */
     #some_id_2, .class {
         padding: 5px 4px; /* Mega comment */
         Color: rgb(255, 255, 255);
     }
 "#;

const SHEET_MINIFIED: &str =
    "#some_id,input{padding:5px 3px;color:white}#some_id_2,.class{padding:5px 4px;color:#fff}";

#[test]
fn inline_css_minifies() {
    assert_eq!(inline_css(SHEET).unwrap().into_string(), SHEET_MINIFIED);
}

#[test]
fn inline_css_of_nothing_is_nothing() {
    assert_eq!(inline_css("").unwrap().into_string(), "");
}

#[test]
fn inline_css_shortens_zero_lengths() {
    assert_eq!(inline_css("body { margin: 0px; }").unwrap().into_string(), "body{margin:0}");
}

#[test]
fn inline_css_turns_down_what_is_no_stylesheet() {
    assert_eq!(inline_css("a { color: red; }}"), Err(StylesheetError::Malformed));
}

#[test]
fn inline_css_turns_down_a_component_above_255() {
    assert_eq!(
        inline_css("a { color: rgb(300, 0, 0); }"),
        Err(StylesheetError::ComponentOutOfRange)
    );
}

#[test]
fn inline_css_turns_down_components_that_merging_would_join() {
    assert_eq!(
        inline_css("a{background-repeat:rg;background-attachment:b(300,0,0)}"),
        Err(StylesheetError::ComponentOutOfRange)
    );
    assert_eq!(
        inline_css(
            "a{margin-top:rgb;margin-right:(300,0,0);margin-bottom:rgb;margin-left:(300,0,0)}"
        ),
        Err(StylesheetError::ComponentOutOfRange)
    );
}

#[test]
fn inline_css_takes_the_largest_components() {
    assert_eq!(
        inline_css("a { color: rgb(255, 0, 254); }").unwrap().into_string(),
        "a{color:#ff00fe}"
    );
}

#[test]
fn inline_css_reads_components_with_leading_zeros() {
    assert_eq!(
        inline_css("a{color:rgb(000255,0,00)}").unwrap().into_string(),
        "a{color:#ff0000}"
    );
}

#[test]
fn minifying_the_minified_sheet_changes_nothing() {
    let once = inline_css(SHEET).unwrap().into_string();
    let twice = inline_css(&once).unwrap().into_string();
    assert_eq!(twice, once);
}

#[test]
fn components_that_fit() {
    for sheet in [
        "",
        "a{color:red}",
        "a{color:rgb(255,255,255)}",
        "a{color:rgb( 0 , 12 ,\t255 )}",
        "a{color:rgb(000255,0,0)}",
        "a{background:url(/public/a.png)}",
        "a{width:calc(100% - 300px)}",
        "a{color:rgba(255,0,0,.5)}",
        "a{transform:translate(300px, 400px)}",
        "a{color:hsl(300, 100%, 50%)}",
        "a{color:rgb(300,0)}",
        "a{color:rgb(300,0,",
        "a{color:rgb(300;0,0)}",
        "(",
        "(1,2,",
        "(1,2,x",
        "(/",
    ] {
        assert!(stylesheet_fits(sheet), "{}", sheet);
    }
}

#[test]
fn components_that_do_not_fit() {
    for sheet in [
        "a{color:rgb(256,0,0)}",
        "a{color:rgb(0,256,0)}",
        "a{color:rgb(0,0,256)}",
        "a{color:rgb( 0 , 0\n,\r\n 1000 )}",
        "a{color:rgb(0300,0,0)}",
        "a{color:rgb(99999999999999999999999999,0,0)}",
        "(0,0,256",
        "a{color:rgba(300,0,0,.5)}",
        "a{color:rgb(/* red */255,0,0)}",
        "a{color:rgb(255/**/,0,0)}",
        "a{color:rgb(255,/**/0,0)}",
        "a{color:rgb(255,0/**/,0)}",
        "a{color:rgb(255,0,/**/0)}",
        "é(256,0,0)",
    ] {
        assert!(!stylesheet_fits(sheet), "{}", sheet);
    }
}

#[test]
fn load_minifies_the_stylesheet_and_keeps_the_icon() {
    let assets = Assets::load("body { margin: 0px; }", "<svg> </svg>").unwrap();
    assert_eq!(assets.style.0, "body{margin:0}");
    assert_eq!(assets.github_icon.0, "<svg> </svg>");
}

#[test]
fn load_reports_the_stylesheet_error() {
    assert_eq!(Assets::load("}", "").unwrap_err(), StylesheetError::Malformed);
    assert_eq!(
        Assets::load("a{b:(256,256,256)}", "").unwrap_err(),
        StylesheetError::ComponentOutOfRange
    );
}

#[test]
fn the_page_inlines_the_minified_stylesheet() {
    let assets = Assets::load(SHEET, "<svg></svg>").unwrap();
    let page = index(&assets).into_string();
    assert!(page.contains(&format!("<style>{}</style>", SHEET_MINIFIED)));
}

#[test]
fn loading_and_rendering_twice_gives_the_same_bytes() {
    let first = index(&Assets::load(SHEET, "<svg></svg>").unwrap()).into_string();
    let second = index(&Assets::load(SHEET, "<svg></svg>").unwrap()).into_string();
    assert_eq!(first.as_bytes(), second.as_bytes());
}
