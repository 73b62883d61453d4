use eplstudents::markup::Markup;
use eplstudents::response::{Redirect, Response};
use eplstudents::site::{discord, index, respond, rocket, Assets, Handler};
use eplstudents::template::{base, button, project};

const HEAD: &str = r##"<html lang="fr"><head><meta http-equiv="Content-Type" content="text/html; charset=UTF-8"><meta charset="utf-8"><meta name="robots" content="index, follow"><meta name="theme-color" content="#000000"><meta name="viewport" content="width=device-width, initial-scale=1.0"><meta http-equiv="keywords" name="keywords" content="Discord, discord, epl, students, école, polytechnique, louvain, ingénieur, cercle, industriel, uclouvain"><meta http-equiv="description" name="description" content="EPLStudents est un site recensant les liens utiles et les projets de la communauté étudiante de l'EPL."><meta http-equiv="cache-control" content="no-cache"><meta http-equiv="pragma" content="no-cache"><meta name="author" content="EPLStudents"><meta name="og:title" content="EPLStudents"><meta name="og:description" content="EPLStudents est un site recensant les liens utiles et les projets de la communauté étudiante de l'EPL."><meta name="og:image" content="https://epl-students.be/public/thumbnails/eplwiki.png"><link rel="icon" href="/public/favicon.ico"><style>"##;

const HOME_BODY: &str = r##"<div class="container"><header><h1>EPLStudents</h1></header><div class="separation"></div><main><p>Ce site recense tous les projets inventés par la communauté étudiante de l'EPL. Vous y trouverez des projets de cours, des projets personnels, ou même des projets à destination de la communauté comme ce site 🙃.</p><div class="projects"><div class="project"><div class="labeled-img"><img alt="EPLWiki thumbnail" src="/public/thumbnails/eplwiki.png"><div><div><h2>EPLWiki</h2></div></div></div><p>Un recueil d'explications, de conseils et d'astuces sur la vie à l'EPL. </p><a class="learn-more" href="https://wiki.epl-students.be"><p>Voir</p></a></div><div class="project"><div class="labeled-img"><img alt="Discord EPL thumbnail" src="/public/thumbnails/discord.png"><div><div><h2>Discord EPL</h2></div></div></div><p>Le Discord des étudiants ingénieurs de l'EPL. N'hésitez pas à nous rejoindre !</p><a class="learn-more" href="https://discord.epl-students.be"><p>Voir</p></a></div><div class="project"><div class="labeled-img"><img alt="UCLouvain Down thumbnail" src="/public/thumbnails/uclouvain-down.png"><div><div><h2>UCLouvain Down</h2></div></div></div><p>Un site permettant de vérifier le statut des différents services de l'UCLouvain.</p><a class="learn-more" href="https://www.uclouvain-down.be"><p>Voir</p></a></div><div class="project"><div class="labeled-img"><img alt="La revue des Ingénieurs thumbnail" src="/public/thumbnails/revue.png"><div><div><h2>La revue des Ingénieurs</h2></div></div></div><p>La seule et unique revue des ingénieurs ! Vous pourrez retrouver les chansons de la revue, des photos, des archives et bien plus encore !</p><a class="learn-more" href="https://revuedesingenieurs.be/"><p>Voir</p></a></div></div></main><footer><p>Ce site est open-source et maintenu par la communauté étudiante de l'EPL.</p><div class="buttons"><a class="button" href="https://github.com/EPLStudents/eplstudents.github.io"><svg></svg><p>Source code</p></a></div></footer></div>"##;

fn markup(html: &str) -> Markup {
    Markup(html.to_string())
}

fn assets() -> Assets {
    Assets { style: markup("body{margin:0}"), github_icon: markup("<svg></svg>") }
}

fn home() -> String {
    format!(
        "{}body{{margin:0}}</style><title>EPLStudents</title></head><body>{}</body></html>",
        HEAD, HOME_BODY
    )
}

#[test]
fn pre_escaped_keeps_the_text() {
    let m = Markup::pre_escaped("<b>&amp;</b>");
    assert_eq!(m, markup("<b>&amp;</b>"));
    assert_eq!(m.into_string(), "<b>&amp;</b>");
}

#[test]
fn base_wraps_content_and_style() {
    let page = base(markup("<p>hi</p>"), &markup("p{color:red}"));
    let expected = format!(
        "{}p{{color:red}}</style><title>EPLStudents</title></head><body><p>hi</p></body></html>",
        HEAD
    );
    assert_eq!(page.into_string(), expected);
}

#[test]
fn base_of_nothing_is_the_bare_shell() {
    let page = base(markup(""), &markup(""));
    let expected =
        format!("{}</style><title>EPLStudents</title></head><body></body></html>", HEAD);
    assert_eq!(page.into_string(), expected);
}

#[test]
fn project_renders_a_card() {
    let card = project("Title", "https://example.org", "/img.png", markup("<em>About</em>"));
    assert_eq!(
        card.into_string(),
        r##"<div class="project"><div class="labeled-img"><img alt="Title thumbnail" src="/img.png"><div><div><h2>Title</h2></div></div></div><p><em>About</em></p><a class="learn-more" href="https://example.org"><p>Voir</p></a></div>"##
    );
}

#[test]
fn project_escapes_its_texts_and_keeps_the_description() {
    let card = project(
        "<b>\"Tom\" & Jerry</b>",
        "https://example.org/?a=1&b=\"2\"",
        "/i<m>g.png",
        markup("<i>a & b</i>"),
    );
    assert_eq!(
        card.into_string(),
        r##"<div class="project"><div class="labeled-img"><img alt="&lt;b&gt;&quot;Tom&quot; &amp; Jerry&lt;/b&gt; thumbnail" src="/i&lt;m&gt;g.png"><div><div><h2>&lt;b&gt;&quot;Tom&quot; &amp; Jerry&lt;/b&gt;</h2></div></div></div><p><i>a & b</i></p><a class="learn-more" href="https://example.org/?a=1&amp;b=&quot;2&quot;"><p>Voir</p></a></div>"##
    );
}

#[test]
fn project_leaves_apostrophes_and_accents_alone() {
    let card = project("L'été", "l", "i", markup(""));
    assert!(card.into_string().contains("<h2>L'été</h2>"));
}

#[test]
fn button_renders_icon_then_handle() {
    let b = button("Source code", "https://example.org", &markup("<svg/>"));
    assert_eq!(
        b.into_string(),
        r##"<a class="button" href="https://example.org"><svg/><p>Source code</p></a>"##
    );
}

#[test]
fn button_escapes_handle_and_link() {
    let b = button("a<b", "x\"y", &markup("<svg/>"));
    assert_eq!(
        b.into_string(),
        r##"<a class="button" href="x&quot;y"><svg/><p>a&lt;b</p></a>"##
    );
}

#[test]
fn index_renders_the_home_page() {
    assert_eq!(index(&assets()).into_string(), home());
}

#[test]
fn index_names_the_site_and_the_projects() {
    let page = index(&assets()).into_string();
    for name in
        ["EPLStudents", "EPLWiki", "Discord EPL", "UCLouvain Down", "La revue des Ingénieurs"]
    {
        assert!(page.contains(name), "{}", name);
    }
}

#[test]
fn index_twice_gives_the_same_bytes() {
    let assets = assets();
    let first = index(&assets).into_string();
    let second = index(&assets).into_string();
    assert_eq!(first.as_bytes(), second.as_bytes());
}

#[test]
fn discord_redirects_to_the_invitation() {
    let redirect = discord();
    assert_eq!(redirect.status, 303);
    assert_eq!(redirect.location, "https://discord.gg/3ZH2YWhsCa");
}

#[test]
fn redirect_to_is_see_other() {
    assert_eq!(
        Redirect::to("/elsewhere"),
        Redirect { status: 303, location: "/elsewhere".to_string() }
    );
}

#[test]
fn respond_index_is_an_html_page() {
    let response = respond(Handler::Index, &assets());
    assert_eq!(
        response,
        Response {
            status: 200,
            content_type: Some("text/html; charset=utf-8".to_string()),
            location: None,
            body: home(),
        }
    );
}

#[test]
fn respond_discord_is_a_redirect_without_body() {
    let response = respond(Handler::Discord, &assets());
    assert_eq!(
        response,
        Response {
            status: 303,
            content_type: None,
            location: Some("https://discord.gg/3ZH2YWhsCa".to_string()),
            body: String::new(),
        }
    );
}

#[test]
fn rocket_lays_out_two_routes_and_the_files() {
    let site = rocket();
    assert_eq!(site.base, "/");
    assert_eq!(site.routes.len(), 2);
    assert_eq!(site.routes[0].path, "/");
    assert_eq!(site.routes[0].handler, Handler::Index);
    assert_eq!(site.routes[1].path, "/discord");
    assert_eq!(site.routes[1].handler, Handler::Discord);
    assert_eq!(site.files_base, "/public");
    assert_eq!(site.files_root, "/public");
}
