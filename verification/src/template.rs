//! The three shapes every page of the site is made of: the page shell, the
//! project card and the button.

use vstd::prelude::*;
use crate::markup::{escaped, push_text, Markup};
use crate::text::{lemma_occurs_between, occurs_in};

verus! {

/// The name of the site, which is also the title of every page.
pub const SITE_NAME: &'static str = "EPLStudents";

/// The head of every page up to the inlined stylesheet: what the page says
/// of itself, and its icon.
pub const HEAD_META: &'static str = "<html lang=\"fr\"><head><meta http-equiv=\"Content-Type\" content=\"text/html; charset=UTF-8\"><meta charset=\"utf-8\"><meta name=\"robots\" content=\"index, follow\"><meta name=\"theme-color\" content=\"#000000\"><meta name=\"viewport\" content=\"width=device-width, initial-scale=1.0\"><meta http-equiv=\"keywords\" name=\"keywords\" content=\"Discord, discord, epl, students, école, polytechnique, louvain, ingénieur, cercle, industriel, uclouvain\"><meta http-equiv=\"description\" name=\"description\" content=\"EPLStudents est un site recensant les liens utiles et les projets de la communauté étudiante de l'EPL.\"><meta http-equiv=\"cache-control\" content=\"no-cache\"><meta http-equiv=\"pragma\" content=\"no-cache\"><meta name=\"author\" content=\"EPLStudents\"><meta name=\"og:title\" content=\"EPLStudents\"><meta name=\"og:description\" content=\"EPLStudents est un site recensant les liens utiles et les projets de la communauté étudiante de l'EPL.\"><meta name=\"og:image\" content=\"https://epl-students.be/public/thumbnails/eplwiki.png\"><link rel=\"icon\" href=\"/public/favicon.ico\">";

/// A whole page: the fixed head with `style` inlined as its stylesheet, and
/// `content` as the body.
pub open spec fn base_html(content: Seq<char>, style: Seq<char>) -> Seq<char> {
    HEAD_META@ + "<style>"@ + style + "</style><title>"@ + SITE_NAME@ + "</title></head><body>"@
        + content + "</body></html>"@
}

/// Wraps `content` into the page shell, with `style` inlined in the head.
///
/// `style` is the stylesheet as it is to be served, already minified.
pub fn base(content: Markup, style: &Markup) -> (page: Markup)
    ensures
        page@ == base_html(content@, style@),
{
    let mut out = HEAD_META.to_owned();
    out.append("<style>");
    out.append(style.0.as_str());
    out.append("</style><title>");
    out.append(SITE_NAME);
    out.append("</title></head><body>");
    out.append(content.0.as_str());
    out.append("</body></html>");
    Markup(out)
}

/// A page holds its title and its content, and holds its stylesheet as one
/// `style` element.
pub proof fn lemma_page_holds_parts(content: Seq<char>, style: Seq<char>)
    ensures
        occurs_in("<style>"@ + style + "</style>"@, base_html(content, style)),
        occurs_in(SITE_NAME@, base_html(content, style)),
        occurs_in(content, base_html(content, style)),
{
    let page = base_html(content, style);
    let title_close = "</title></head><body>"@;
    let end = "</body></html>"@;
    assert("</style><title>"@ =~= "</style>"@ + "<title>"@) by {
        reveal_strlit("</style><title>");
        reveal_strlit("</style>");
        reveal_strlit("<title>");
    }
    assert(page =~= HEAD_META@ + ("<style>"@ + style + "</style>"@) + ("<title>"@ + SITE_NAME@
        + title_close + content + end));
    lemma_occurs_between(
        HEAD_META@,
        "<style>"@ + style + "</style>"@,
        "<title>"@ + SITE_NAME@ + title_close + content + end,
    );
    assert(page =~= (HEAD_META@ + "<style>"@ + style + "</style><title>"@) + SITE_NAME@ + (
    title_close + content + end));
    lemma_occurs_between(
        HEAD_META@ + "<style>"@ + style + "</style><title>"@,
        SITE_NAME@,
        title_close + content + end,
    );
    lemma_occurs_between(
        HEAD_META@ + "<style>"@ + style + "</style><title>"@ + SITE_NAME@ + title_close,
        content,
        end,
    );
}

/// A project card: the thumbnail with the title laid over it, the
/// description, and a link to the project. The three texts are escaped, the
/// description is markup already.
pub open spec fn project_html(
    title: Seq<char>,
    link: Seq<char>,
    img_src: Seq<char>,
    descr: Seq<char>,
) -> Seq<char> {
    "<div class=\"project\"><div class=\"labeled-img\"><img alt=\""@ + escaped(
        title + " thumbnail"@,
    ) + "\" src=\""@ + escaped(img_src) + "\"><div><div><h2>"@ + escaped(title)
        + "</h2></div></div></div><p>"@ + descr + "</p><a class=\"learn-more\" href=\""@
        + escaped(link) + "\"><p>Voir</p></a></div>"@
}

/// Renders the card of one project.
pub fn project(title: &str, link: &str, img_src: &str, descr: Markup) -> (card: Markup)
    ensures
        card@ == project_html(title@, link@, img_src@, descr@),
{
    let alt = title.to_owned().concat(" thumbnail");
    let mut out = "<div class=\"project\"><div class=\"labeled-img\"><img alt=\"".to_owned();
    push_text(&mut out, alt.as_str());
    out.append("\" src=\"");
    push_text(&mut out, img_src);
    out.append("\"><div><div><h2>");
    push_text(&mut out, title);
    out.append("</h2></div></div></div><p>");
    out.append(descr.0.as_str());
    out.append("</p><a class=\"learn-more\" href=\"");
    push_text(&mut out, link);
    out.append("\"><p>Voir</p></a></div>");
    Markup(out)
}

/// A card shows its title, escaped.
pub proof fn lemma_project_shows_title(
    title: Seq<char>,
    link: Seq<char>,
    img_src: Seq<char>,
    descr: Seq<char>,
)
    ensures
        occurs_in(escaped(title), project_html(title, link, img_src, descr)),
{
    let before = "<div class=\"project\"><div class=\"labeled-img\"><img alt=\""@ + escaped(
        title + " thumbnail"@,
    ) + "\" src=\""@ + escaped(img_src) + "\"><div><div><h2>"@;
    let after = "</h2></div></div></div><p>"@ + descr
        + "</p><a class=\"learn-more\" href=\""@ + escaped(link)
        + "\"><p>Voir</p></a></div>"@;
    assert(project_html(title, link, img_src, descr) =~= before + escaped(title) + after);
    lemma_occurs_between(before, escaped(title), after);
}

/// A button: a link that shows `icon`, which is markup, and then the escaped
/// `handle`.
pub open spec fn button_html(handle: Seq<char>, link: Seq<char>, icon: Seq<char>) -> Seq<char> {
    "<a class=\"button\" href=\""@ + escaped(link) + "\">"@ + icon + "<p>"@ + escaped(handle)
        + "</p></a>"@
}

/// Renders a button.
pub fn button(handle: &str, link: &str, icon: &Markup) -> (markup: Markup)
    ensures
        markup@ == button_html(handle@, link@, icon@),
{
    let mut out = "<a class=\"button\" href=\"".to_owned();
    push_text(&mut out, link);
    out.append("\">");
    out.append(icon.0.as_str());
    out.append("<p>");
    push_text(&mut out, handle);
    out.append("</p></a>");
    Markup(out)
}

} // verus!
