//! The site itself: its assets, its home page, its redirect and its routes.

use vstd::prelude::*;
use crate::markup::{escaped, lemma_escaped_plain, Markup};
use crate::response::{page_response, redirect_response, Redirect, Response, ResponseView};
use crate::stylesheet::{inline_css, inlined, minified_css, StylesheetError};
use crate::template::{
    base, base_html, button, button_html, lemma_page_holds_parts, lemma_project_shows_title,
    project, project_html, SITE_NAME,
};
use crate::text::{
    lemma_occurs_between, lemma_occurs_in_four, lemma_occurs_in_transitive, occurs_in,
};

verus! {

/// The first words of the home page.
pub const INTRODUCTION: &'static str = "Ce site recense tous les projets inventés par la communauté étudiante de l'EPL. Vous y trouverez des projets de cours, des projets personnels, ou même des projets à destination de la communauté comme ce site 🙃.";

/// The last words of the home page.
pub const FOOTNOTE: &'static str = "Ce site est open-source et maintenu par la communauté étudiante de l'EPL.";

/// EPLWiki: its title, its link, where its thumbnail is served, and its
/// description.
pub const EPLWIKI_TITLE: &'static str = "EPLWiki";

pub const EPLWIKI_LINK: &'static str = "https://wiki.epl-students.be";

pub const EPLWIKI_IMG_SRC: &'static str = "/public/thumbnails/eplwiki.png";

pub const EPLWIKI_DESCR: &'static str = "Un recueil d'explications, de conseils et d'astuces sur la vie à l'EPL. ";

/// The Discord server, in the same four parts.
pub const DISCORD_TITLE: &'static str = "Discord EPL";

pub const DISCORD_LINK: &'static str = "https://discord.epl-students.be";

pub const DISCORD_IMG_SRC: &'static str = "/public/thumbnails/discord.png";

pub const DISCORD_DESCR: &'static str = "Le Discord des étudiants ingénieurs de l'EPL. N'hésitez pas à nous rejoindre !";

/// UCLouvain Down, in the same four parts.
pub const UCLOUVAINDOWN_TITLE: &'static str = "UCLouvain Down";

pub const UCLOUVAINDOWN_LINK: &'static str = "https://www.uclouvain-down.be";

pub const UCLOUVAINDOWN_IMG_SRC: &'static str = "/public/thumbnails/uclouvain-down.png";

pub const UCLOUVAINDOWN_DESCR: &'static str = "Un site permettant de vérifier le statut des différents services de l'UCLouvain.";

/// The revue, in the same four parts.
pub const REVUE_TITLE: &'static str = "La revue des Ingénieurs";

pub const REVUE_LINK: &'static str = "https://revuedesingenieurs.be/";

pub const REVUE_IMG_SRC: &'static str = "/public/thumbnails/revue.png";

pub const REVUE_DESCR: &'static str = "La seule et unique revue des ingénieurs ! Vous pourrez retrouver les chansons de la revue, des photos, des archives et bien plus encore !";

/// What the button in the footer says.
pub const SOURCE_HANDLE: &'static str = "Source code";

/// The invitation to the Discord server.
pub const DISCORD_INVITE: &'static str = "https://discord.gg/3ZH2YWhsCa";

/// The repository that holds the site's source.
pub const SOURCE_REPOSITORY: &'static str = "https://github.com/EPLStudents/eplstudents.github.io";

/// The file of the stylesheet, below the directory of the served files.
pub const STYLESHEET_FILE: &'static str = "/main.css";

/// The file of the icon that the link to the source shows, below the
/// directory of the served files.
pub const GITHUB_ICON_FILE: &'static str = "/icons/gh.svg";

/// The two assets that pages inline: the stylesheet, minified, and the
/// icon of the link to the source, both as markup.
#[derive(Clone, Debug)]
pub struct Assets {
    pub style: Markup,
    pub github_icon: Markup,
}

impl Assets {
    /// Prepares the assets from the text of the stylesheet and of the icon:
    /// the stylesheet is minified, the icon is taken as it is.
    pub fn load(stylesheet: &str, github_icon: &str) -> (result: Result<Assets, StylesheetError>)
        ensures
            match result {
                Ok(assets) => inlined(stylesheet@) == Ok::<Seq<char>, StylesheetError>(
                    assets.style@,
                ) && assets.github_icon@ == github_icon@,
                Err(error) => inlined(stylesheet@) == Err::<Seq<char>, StylesheetError>(error),
            },
    {
        match inline_css(stylesheet) {
            Ok(style) => Ok(Assets { style, github_icon: Markup::pre_escaped(github_icon) }),
            Err(error) => Err(error),
        }
    }
}

/// The card of EPLWiki.
pub open spec fn eplwiki_card() -> Seq<char> {
    project_html(EPLWIKI_TITLE@, EPLWIKI_LINK@, EPLWIKI_IMG_SRC@, EPLWIKI_DESCR@)
}

/// The card of the Discord server.
pub open spec fn discord_card() -> Seq<char> {
    project_html(DISCORD_TITLE@, DISCORD_LINK@, DISCORD_IMG_SRC@, DISCORD_DESCR@)
}

/// The card of UCLouvain Down.
pub open spec fn uclouvaindown_card() -> Seq<char> {
    project_html(
        UCLOUVAINDOWN_TITLE@,
        UCLOUVAINDOWN_LINK@,
        UCLOUVAINDOWN_IMG_SRC@,
        UCLOUVAINDOWN_DESCR@,
    )
}

/// The card of the revue.
pub open spec fn revue_card() -> Seq<char> {
    project_html(REVUE_TITLE@, REVUE_LINK@, REVUE_IMG_SRC@, REVUE_DESCR@)
}

/// The cards of the four projects, in the order of the page.
pub open spec fn projects_html() -> Seq<char> {
    eplwiki_card() + discord_card() + uclouvaindown_card() + revue_card()
}

/// The body of the home page: the heading, the introduction, the project
/// cards, and the footer with the button that links to the source.
pub open spec fn home_content(github_icon: Seq<char>) -> Seq<char> {
    "<div class=\"container\"><header><h1>"@ + SITE_NAME@
        + "</h1></header><div class=\"separation\"></div><main><p>"@ + INTRODUCTION@
        + "</p><div class=\"projects\">"@ + projects_html() + "</div></main><footer><p>"@
        + FOOTNOTE@ + "</p><div class=\"buttons\">"@ + button_html(
        SOURCE_HANDLE@,
        SOURCE_REPOSITORY@,
        github_icon,
    ) + "</div></footer></div>"@
}

/// The home page, given the minified stylesheet and the icon.
pub open spec fn home_page(style: Seq<char>, github_icon: Seq<char>) -> Seq<char> {
    base_html(home_content(github_icon), style)
}

/// Whether `body` names the site and each of its four projects.
pub open spec fn names_site_and_projects(body: Seq<char>) -> bool {
    &&& occurs_in("EPLStudents"@, body)
    &&& occurs_in("EPLWiki"@, body)
    &&& occurs_in("Discord EPL"@, body)
    &&& occurs_in("UCLouvain Down"@, body)
    &&& occurs_in("La revue des Ingénieurs"@, body)
}

/// The four titles hold no special character: escaping leaves them as
/// they are.
proof fn lemma_titles_are_plain()
    ensures
        escaped("EPLWiki"@) == "EPLWiki"@,
        escaped("Discord EPL"@) == "Discord EPL"@,
        escaped("UCLouvain Down"@) == "UCLouvain Down"@,
        escaped("La revue des Ingénieurs"@) == "La revue des Ingénieurs"@,
{
    assert(escaped("EPLWiki"@) == "EPLWiki"@) by {
        reveal_strlit("EPLWiki");
        lemma_escaped_plain("EPLWiki"@);
    }
    assert(escaped("Discord EPL"@) == "Discord EPL"@) by {
        reveal_strlit("Discord EPL");
        lemma_escaped_plain("Discord EPL"@);
    }
    assert(escaped("UCLouvain Down"@) == "UCLouvain Down"@) by {
        reveal_strlit("UCLouvain Down");
        lemma_escaped_plain("UCLouvain Down"@);
    }
    assert(escaped("La revue des Ingénieurs"@) == "La revue des Ingénieurs"@) by {
        reveal_strlit("La revue des Ingénieurs");
        lemma_escaped_plain("La revue des Ingénieurs"@);
    }
}

/// The title of a card occurs, escaped, in every text that the card occurs
/// in.
proof fn lemma_title_occurs(
    title: Seq<char>,
    link: Seq<char>,
    img_src: Seq<char>,
    descr: Seq<char>,
    text: Seq<char>,
)
    requires
        occurs_in(project_html(title, link, img_src, descr), text),
    ensures
        occurs_in(escaped(title), text),
{
    lemma_project_shows_title(title, link, img_src, descr);
    lemma_occurs_in_transitive(escaped(title), project_html(title, link, img_src, descr), text);
}

/// The home page holds the cards of the projects.
proof fn lemma_home_page_holds_cards(style: Seq<char>, github_icon: Seq<char>)
    ensures
        occurs_in(projects_html(), home_page(style, github_icon)),
{
    let content = home_content(github_icon);
    let before = "<div class=\"container\"><header><h1>"@ + SITE_NAME@
        + "</h1></header><div class=\"separation\"></div><main><p>"@ + INTRODUCTION@
        + "</p><div class=\"projects\">"@;
    let after = "</div></main><footer><p>"@ + FOOTNOTE@ + "</p><div class=\"buttons\">"@
        + button_html(SOURCE_HANDLE@, SOURCE_REPOSITORY@, github_icon)
        + "</div></footer></div>"@;
    assert(content =~= before + projects_html() + after);
    lemma_occurs_between(before, projects_html(), after);
    lemma_page_holds_parts(content, style);
    lemma_occurs_in_transitive(projects_html(), content, home_page(style, github_icon));
}

/// The home page names the site and its four projects, whatever the assets
/// are.
pub proof fn lemma_home_page_names_projects(style: Seq<char>, github_icon: Seq<char>)
    ensures
        names_site_and_projects(home_page(style, github_icon)),
{
    let cards = projects_html();
    let page = home_page(style, github_icon);

    lemma_page_holds_parts(home_content(github_icon), style);

    lemma_home_page_holds_cards(style, github_icon);
    lemma_occurs_in_four(eplwiki_card(), discord_card(), uclouvaindown_card(), revue_card());
    lemma_occurs_in_transitive(eplwiki_card(), cards, page);
    lemma_occurs_in_transitive(discord_card(), cards, page);
    lemma_occurs_in_transitive(uclouvaindown_card(), cards, page);
    lemma_occurs_in_transitive(revue_card(), cards, page);

    lemma_titles_are_plain();
    lemma_title_occurs(EPLWIKI_TITLE@, EPLWIKI_LINK@, EPLWIKI_IMG_SRC@, EPLWIKI_DESCR@, page);
    lemma_title_occurs(DISCORD_TITLE@, DISCORD_LINK@, DISCORD_IMG_SRC@, DISCORD_DESCR@, page);
    lemma_title_occurs(
        UCLOUVAINDOWN_TITLE@,
        UCLOUVAINDOWN_LINK@,
        UCLOUVAINDOWN_IMG_SRC@,
        UCLOUVAINDOWN_DESCR@,
        page,
    );
    lemma_title_occurs(REVUE_TITLE@, REVUE_LINK@, REVUE_IMG_SRC@, REVUE_DESCR@, page);
}

fn projects() -> (cards: Markup)
    ensures
        cards@ == projects_html(),
{
    let mut out = project(
        EPLWIKI_TITLE,
        EPLWIKI_LINK,
        EPLWIKI_IMG_SRC,
        Markup::pre_escaped(EPLWIKI_DESCR),
    ).into_string();
    out.append(
        project(
            DISCORD_TITLE,
            DISCORD_LINK,
            DISCORD_IMG_SRC,
            Markup::pre_escaped(DISCORD_DESCR),
        ).0.as_str(),
    );
    out.append(
        project(
            UCLOUVAINDOWN_TITLE,
            UCLOUVAINDOWN_LINK,
            UCLOUVAINDOWN_IMG_SRC,
            Markup::pre_escaped(UCLOUVAINDOWN_DESCR),
        ).0.as_str(),
    );
    out.append(
        project(REVUE_TITLE, REVUE_LINK, REVUE_IMG_SRC, Markup::pre_escaped(REVUE_DESCR)).0.as_str(),
    );
    Markup(out)
}

/// Renders the home page.
pub fn index(assets: &Assets) -> (page: Markup)
    ensures
        page@ == home_page(assets.style@, assets.github_icon@),
        names_site_and_projects(page@),
{
    proof {
        lemma_home_page_names_projects(assets.style@, assets.github_icon@);
    }
    let mut out = "<div class=\"container\"><header><h1>".to_owned();
    out.append(SITE_NAME);
    out.append("</h1></header><div class=\"separation\"></div><main><p>");
    out.append(INTRODUCTION);
    out.append("</p><div class=\"projects\">");
    out.append(projects().0.as_str());
    out.append("</div></main><footer><p>");
    out.append(FOOTNOTE);
    out.append("</p><div class=\"buttons\">");
    out.append(button(SOURCE_HANDLE, SOURCE_REPOSITORY, &assets.github_icon).0.as_str());
    out.append("</div></footer></div>");
    base(Markup(out), &assets.style)
}

/// Sends the client on to the Discord server.
pub fn discord() -> (redirect: Redirect)
    ensures
        redirect.status == 303,
        redirect.location@ == "https://discord.gg/3ZH2YWhsCa"@,
{
    Redirect::to(DISCORD_INVITE)
}

/// The functions that answer requests.
#[derive(Clone, Copy, Debug, PartialEq, Eq)]
pub enum Handler {
    /// The home page, [`index`].
    Index,
    /// The redirection to the Discord server, [`discord`].
    Discord,
}

/// A route: a `GET` request for exactly `path` is answered by `handler`.
#[derive(Clone, Copy, Debug)]
pub struct Route {
    pub path: &'static str,
    pub handler: Handler,
}

/// The whole site: the routes that this library answers, and the files that
/// are served as they are.
#[derive(Debug)]
pub struct Site {
    /// The path under which the routes are mounted.
    pub base: &'static str,
    /// The routes, in the order in which they are mounted.
    pub routes: Vec<Route>,
    /// The path under which files are served.
    pub files_base: &'static str,
    /// The directory that holds those files, from the root of the package.
    pub files_root: &'static str,
}

/// Lays out the site: the home page at `/`, the redirection at `/discord`,
/// and the files of the directory `/public` under `/public`.
pub fn rocket() -> (site: Site)
    ensures
        site.base@ == "/"@,
        site.routes@.len() == 2,
        site.routes@[0].path@ == "/"@,
        site.routes@[0].handler == Handler::Index,
        site.routes@[1].path@ == "/discord"@,
        site.routes@[1].handler == Handler::Discord,
        site.files_base@ == "/public"@,
        site.files_root@ == "/public"@,
{
    let mut routes = Vec::new();
    routes.push(Route { path: "/", handler: Handler::Index });
    routes.push(Route { path: "/discord", handler: Handler::Discord });
    Site { base: "/", routes, files_base: "/public", files_root: "/public" }
}

/// What `handler` answers, given the minified stylesheet and the icon.
pub open spec fn answer(handler: Handler, style: Seq<char>, github_icon: Seq<char>) -> ResponseView {
    match handler {
        Handler::Index => page_response(home_page(style, github_icon)),
        Handler::Discord => redirect_response(303, "https://discord.gg/3ZH2YWhsCa"@),
    }
}

/// Answers a request that was routed to `handler`.
///
/// The home page comes with status 200 as HTML and names the site and its
/// projects; the redirection comes with status 303 and the invitation as
/// its location.
pub fn respond(handler: Handler, assets: &Assets) -> (response: Response)
    ensures
        response@ == answer(handler, assets.style@, assets.github_icon@),
        handler == Handler::Index ==> response@.status == 200 && response@.content_type == Some(
            "text/html; charset=utf-8"@,
        ) && names_site_and_projects(response@.body),
        handler == Handler::Discord ==> response@.status == 303 && response@.location == Some(
            "https://discord.gg/3ZH2YWhsCa"@,
        ) && response@.body.len() == 0,
{
    match handler {
        Handler::Index => Response::page(index(assets)),
        Handler::Discord => Response::redirect(discord()),
    }
}

/// The home page inlines what the minifier made of the stylesheet, and
/// nothing else, as its one `style` element: where loading `stylesheet`
/// gave `assets`, the page holds the minified text between the two tags.
pub proof fn lemma_home_page_inlines_minified(stylesheet: Seq<char>, assets: Assets)
    requires
        inlined(stylesheet) == Ok::<Seq<char>, StylesheetError>(assets.style@),
    ensures
        minified_css(stylesheet) == Some(assets.style@),
        occurs_in(
            "<style>"@ + assets.style@ + "</style>"@,
            home_page(assets.style@, assets.github_icon@),
        ),
{
    lemma_page_holds_parts(home_content(assets.github_icon@), assets.style@);
}

/// Rendering the home page is repeatable: two pages that [`index`] renders
/// from the same assets are the same, character for character.
pub proof fn lemma_index_is_repeatable(assets: Assets, first: Markup, second: Markup)
    requires
        first@ == home_page(assets.style@, assets.github_icon@),
        second@ == home_page(assets.style@, assets.github_icon@),
    ensures
        first@ == second@,
{
}

/// The page depends on nothing but the text of the two assets: where the
/// same stylesheet and icon are loaded twice by [`Assets::load`], the home
/// pages rendered from the two results are the same.
pub proof fn lemma_pages_of_one_source_agree(
    stylesheet: Seq<char>,
    github_icon: Seq<char>,
    first: Assets,
    second: Assets,
)
    requires
        inlined(stylesheet) == Ok::<Seq<char>, StylesheetError>(first.style@),
        inlined(stylesheet) == Ok::<Seq<char>, StylesheetError>(second.style@),
        first.github_icon@ == github_icon,
        second.github_icon@ == github_icon,
    ensures
        home_page(first.style@, first.github_icon@) == home_page(
            second.style@,
            second.github_icon@,
        ),
{
}

} // verus!
