use bobbbay::builder::{built_file, BuildError, Builder, BuiltFile, Page};
use tera::Tera;

fn engine_with(name: &str, source: &str) -> Tera {
    let mut engine = Tera::default();
    engine.add_raw_template(name, source).unwrap();
    engine
}

fn render(engine: &Tera, template: &str) -> Result<String, String> {
    engine.render(template, &tera::Context::new()).map_err(|e| e.to_string())
}

fn render_pages(engine: &Tera, builder: &Builder) -> Vec<Result<String, String>> {
    let mut rendered = Vec::new();
    for page in &builder.pages {
        let outcome = render(engine, &page.template);
        let failed = outcome.is_err();
        rendered.push(outcome);
        if failed {
            break;
        }
    }
    rendered
}

fn page(template: &str, output: &str) -> Page {
    Page { template: template.to_string(), output: output.to_string() }
}

fn file(path: &str, content: &str) -> BuiltFile {
    BuiltFile { path: path.to_string(), content: content.to_string() }
}

fn three_pages() -> Builder {
    Builder {
        output_dir: "out".to_string(),
        pages: vec![page("a.tera", "a.html"), page("b.tera", "sub/b.html"), page("c.tera", "c")],
    }
}

#[test]
fn default_builder_has_the_index_page() {
    let b = Builder::default();
    assert_eq!(b.output_dir, "./build");
    assert_eq!(b.pages, vec![page("index.tera", "index.html")]);
}

#[test]
fn build_returns_the_rendered_index() {
    let rendered = vec![Ok("<h1>Hi</h1>".to_string())];
    assert_eq!(
        Builder::default().build(&rendered),
        Ok(vec![file("./build/index.html", "<h1>Hi</h1>")])
    );
}

#[test]
fn build_content_is_what_the_engine_renders() {
    let source = "{% set n = 1 + 2 %}<p>{{ n }}</p>{# gone #}";
    let engine = engine_with("index.tera", source);
    let builder = Builder::default();
    let rendered = render_pages(&engine, &builder);
    assert_eq!(rendered, vec![Ok("<p>3</p>".to_string())]);
    assert_eq!(builder.build(&rendered), Ok(vec![file("./build/index.html", "<p>3</p>")]));
}

#[test]
fn build_keeps_every_page_in_order() {
    let rendered = vec![Ok("A".to_string()), Ok(String::new()), Ok("📚 C\n".to_string())];
    assert_eq!(
        three_pages().build(&rendered),
        Ok(vec![file("out/a.html", "A"), file("out/sub/b.html", ""), file("out/c", "📚 C\n")])
    );
}

#[test]
fn build_without_the_template_fails() {
    let engine = Tera::default();
    let builder = Builder::default();
    let reason = render(&engine, "index.tera").unwrap_err();
    assert!(reason.contains("index.tera"));
    assert_eq!(
        builder.build(&render_pages(&engine, &builder)),
        Err(BuildError::Render { template: "index.tera".to_string(), reason })
    );
}

#[test]
fn build_with_an_empty_context_fails_on_an_unknown_variable() {
    let engine = engine_with("index.tera", "{{ missing }}");
    let builder = Builder::default();
    let reason = render(&engine, "index.tera").unwrap_err();
    assert!(!reason.is_empty());
    assert_eq!(
        builder.build(&render_pages(&engine, &builder)),
        Err(BuildError::Render { template: "index.tera".to_string(), reason })
    );
}

#[test]
fn a_failed_page_returns_no_files() {
    let rendered = vec![Ok("A".to_string()), Err("broken".to_string()), Ok("C".to_string())];
    assert_eq!(
        three_pages().build(&rendered),
        Err(BuildError::Render { template: "b.tera".to_string(), reason: "broken".to_string() })
    );
}

#[test]
fn the_first_failed_page_decides_the_error() {
    let rendered =
        vec![Err("first".to_string()), Err("second".to_string()), Err("third".to_string())];
    assert_eq!(
        three_pages().build(&rendered),
        Err(BuildError::Render { template: "a.tera".to_string(), reason: "first".to_string() })
    );
    let rendered = vec![Ok("A".to_string()), Ok("B".to_string()), Err("third".to_string())];
    assert_eq!(
        three_pages().build(&rendered),
        Err(BuildError::Render { template: "c.tera".to_string(), reason: "third".to_string() })
    );
}

#[test]
fn a_page_without_an_outcome_is_not_rendered() {
    assert_eq!(
        three_pages().build(&Vec::new()),
        Err(BuildError::NotRendered { template: "a.tera".to_string() })
    );
    let rendered = vec![Ok("A".to_string()), Ok("B".to_string())];
    assert_eq!(
        three_pages().build(&rendered),
        Err(BuildError::NotRendered { template: "c.tera".to_string() })
    );
}

#[test]
fn a_failure_comes_before_a_missing_outcome() {
    let rendered = vec![Ok("A".to_string()), Err("broken".to_string())];
    assert_eq!(
        three_pages().build(&rendered),
        Err(BuildError::Render { template: "b.tera".to_string(), reason: "broken".to_string() })
    );
}

#[test]
fn outcomes_past_the_last_page_are_not_looked_at() {
    let rendered = vec![Ok("<h1>Hi</h1>".to_string()), Err("nobody's".to_string())];
    assert_eq!(
        Builder::default().build(&rendered),
        Ok(vec![file("./build/index.html", "<h1>Hi</h1>")])
    );
}

#[test]
fn build_of_no_pages_is_empty() {
    let builder = Builder { output_dir: "out".to_string(), pages: Vec::new() };
    assert_eq!(builder.build(&Vec::new()), Ok(Vec::new()));
    assert_eq!(builder.build(&vec![Err("unused".to_string())]), Ok(Vec::new()));
}

#[test]
fn built_file_keeps_the_text_and_places_it() {
    let index = page("index.tera", "index.html");
    assert_eq!(
        built_file("./build", &index, Ok("<h1>Hi</h1>".to_string())),
        Ok(file("./build/index.html", "<h1>Hi</h1>"))
    );
    assert_eq!(
        built_file("./build", &index, Ok(String::new())),
        Ok(file("./build/index.html", ""))
    );
    assert_eq!(
        built_file("./build", &index, Err("no such template".to_string())),
        Err(BuildError::Render {
            template: "index.tera".to_string(),
            reason: "no such template".to_string()
        })
    );
}

#[test]
fn build_errors_have_messages() {
    assert_eq!(
        BuildError::Render { template: "index.tera".to_string(), reason: "why".to_string() }
            .message(),
        "failed to render index.tera: why"
    );
    assert_eq!(
        BuildError::NotRendered { template: "index.tera".to_string() }.message(),
        "no text for index.tera"
    );
    assert_eq!(
        BuildError::Write { path: "./build/index.html".to_string() }.message(),
        "failed to write ./build/index.html"
    );
}
