//! Template content generation for scaffolding: the navbar component, route
//! pages and handlers, and the generated project's package manifest. Each
//! function returns the exact text (and, where one is derived, the file path)
//! for the caller to write out.

use vstd::prelude::*;

verus! {

use vstd::string::StrSliceExecFns;
use vstd::string::StringExecFns;
use crate::database::Database;
use crate::database::DatabaseType;

/// The navbar component markup.
pub const NAVBAR_COMPONENT: &'static str = "<header class='relative'>
    <div class='bg-gray-900 pt-6'>
        <nav class='relative mx-auto flex max-w-7xl items-center justify-between px-6' aria-label='Global'>
            <div class='flex flex-1 items-center'>
                <div class='flex w-full items-center justify-between md:w-auto'>
                    <a href='/'>
                        <span class='sr-only'>Your Company</span>
                        <img class='h-8 w-auto sm:h-10'
                            src='https://tailwindui.com/img/logos/mark.svg?from-color=teal&from-shade=200&to-color=cyan&to-shade=400&toShade=400'
                            alt=''>
                    </a>
                    <div class='-mr-2 flex items-center md:hidden'>
                        <button type='button'
                            class='focus-ring-inset inline-flex items-center justify-center rounded-md bg-gray-900 p-2 text-gray-400 hover:bg-gray-800 focus:outline-none focus:ring-2 focus:ring-white'
                            aria-expanded='false'>
                            <span class='sr-only'>Open main menu</span>
                            <!-- Heroicon name: outline/bars-3 -->
                            <svg class='h-6 w-6' xmlns='http://www.w3.org/2000/svg' fill='none' viewBox='0 0 24 24'
                                stroke-width='1.5' stroke='currentColor' aria-hidden='true'>
                                <path stroke-linecap='round' stroke-linejoin='round'
                                    d='M3.75 6.75h16.5M3.75 12h16.5m-16.5 5.25h16.5' />
                            </svg>
                        </button>
                    </div>
                </div>
            </div>
            <div class='hidden md:flex md:items-center md:space-x-6'>
                <a href='/login' class='text-base font-medium text-white hover:text-gray-300'>Log in</a>
            </div>
        </nav>
    </div>

    <!--
        Mobile menu, show/hide based on menu open state.

        Entering: 'duration-150 ease-out'
          From: 'opacity-0 scale-95'
          To: 'opacity-100 scale-100'
        Leaving: 'duration-100 ease-in'
          From: 'opacity-100 scale-100'
          To: 'opacity-0 scale-95'
      -->
    <div class='absolute inset-x-0 top-0 origin-top transform p-2 transition md:hidden'>
        <div class='overflow-hidden rounded-lg bg-white shadow-md ring-1 ring-black ring-opacity-5'>
            <div class='flex items-center justify-between px-5 pt-4'>
                <div>
                    <img class='h-8 w-auto'
                        src='https://tailwindui.com/img/logos/mark.svg?from-color=teal&from-shade=500&to-color=cyan&to-shade=600&toShade=600'
                        alt=''>
                </div>
                <div class='-mr-2'>
                    <button type='button'
                        class='inline-flex items-center justify-center rounded-md bg-white p-2 text-gray-400 hover:bg-gray-100 focus:outline-none focus:ring-2 focus:ring-inset focus:ring-cyan-600'>
                        <span class='sr-only'>Close menu</span>
                        <!-- Heroicon name: outline/x-mark -->
                        <svg class='h-6 w-6' xmlns='http://www.w3.org/2000/svg' fill='none' viewBox='0 0 24 24'
                            stroke-width='1.5' stroke='currentColor' aria-hidden='true'>
                            <path stroke-linecap='round' stroke-linejoin='round' d='M6 18L18 6M6 6l12 12' />
                        </svg>
                    </button>
                </div>
            </div>
            <div class='pt-5 pb-6'>
                <div class='mt-6 px-5'>
                    <p class='text-center text-base font-medium text-gray-500'>Ready to start building? <a href='#'
                            class='text-gray-900 hover:underline'>Login</a></p>
                </div>
            </div>
        </div>
    </div>
</header>";

/// The navbar component's contents, for the caller to write to the project's
/// navbar component file.
pub fn write_to_navbar() -> (r: String)
    ensures
        r@ == NAVBAR_COMPONENT@,
{
    NAVBAR_COMPONENT.to_owned()
}

/// The route page template markup.
pub const ROUTE_PAGE_HTML: &'static str = "{% extends 'base' %}
{% block title %}Index{% endblock title %}
{% block head %}
{{ super() }}
{% endblock head %}
{% block content %}
<div class='relative px-6 lg:px-8'>
<div class='mx-auto  max-w-2xl py-32 sm:py-48 lg:py-56' >
<h1 class='text-4xl sm:text-5xl lg:text-6xl font-extrabold leading-none mb-4'>Your Route's Name: {{route_name}}</h1>
<p class='text-xl sm:text-2xl lg:text-3xl font-medium mb-8'>This is a rustyroad project</p>
</div>
</div>
{% endblock content %}";

/// The rocket handler source for a route named `name`.
pub open spec fn spec_route_handler_rs(name: Seq<char>) -> Seq<char> {
    "use rocket::fs::{relative, FileServer};
use rocket_dyn_templates::{context, Template};

#[get(\"/"@ + name + "\")]
pub fn index() -> Template {
    Template::render(
        \"pages/"@ + name + "\",
        context! {
            route_name: \""@ + name + "\",
        },
    )
}"@
}

/// Renders the rocket handler source for a route named `name`.
fn route_handler_rs(name: &str) -> (r: String)
    ensures
        r@ == spec_route_handler_rs(name@),
{
    let mut r: String = "use rocket::fs::{relative, FileServer};
use rocket_dyn_templates::{context, Template};

#[get(\"/".to_owned();
    r.append(name);
    r.append("\")]
pub fn index() -> Template {
    Template::render(
        \"pages/");
    r.append(name);
    r.append("\",
        context! {
            route_name: \"");
    r.append(name);
    r.append("\",
        },
    )
}");
    proof {
        assert(r@ =~= spec_route_handler_rs(name@));
    }
    r
}

/// The page file for a new route: its path under the templates directory,
/// and its contents.
pub fn write_to_route_name_html(route_name: String) -> (r: (String, String))
    ensures
        r.0@ == "./templates/pages/"@ + route_name@ + ".html.tera"@,
        r.1@ == ROUTE_PAGE_HTML@,
{
    let mut path: String = "./templates/pages/".to_owned();
    path.append(route_name.as_str());
    path.append(".html.tera");
    proof {
        assert(path@ =~= "./templates/pages/"@ + route_name@ + ".html.tera"@);
    }
    (path, ROUTE_PAGE_HTML.to_owned())
}

/// The handler file for a new route: its path under the routes directory,
/// and its contents.
pub fn write_to_route_name_rs(route_name: String) -> (r: (String, String))
    ensures
        r.0@ == "./src/routes/"@ + route_name@ + "/"@ + route_name@ + ".rs"@,
        r.1@ == spec_route_handler_rs(route_name@),
{
    let mut path: String = "./src/routes/".to_owned();
    path.append(route_name.as_str());
    path.append("/");
    path.append(route_name.as_str());
    path.append(".rs");
    proof {
        assert(path@ =~= "./src/routes/"@ + route_name@ + "/"@ + route_name@ + ".rs"@);
    }
    (path, route_handler_rs(route_name.as_str()))
}

/// The text after the last slash; the whole text when there is no slash.
pub open spec fn spec_after_last_slash(s: Seq<char>) -> Seq<char>
    decreases s.len(),
{
    if s.len() == 0 {
        s
    } else if s.last() == '/' {
        Seq::empty()
    } else {
        spec_after_last_slash(s.drop_last()) + seq![s.last()]
    }
}

/// A suffix free of slashes and starting right after one (or at the start)
/// is exactly the text after the last slash.
proof fn lemma_after_last_slash(s: Seq<char>, idx: int)
    requires
        0 <= idx <= s.len(),
        forall|j: int| idx <= j < s.len() ==> s[j] != '/',
        idx == 0 || s[idx - 1] == '/',
    ensures
        spec_after_last_slash(s) == s.subrange(idx, s.len() as int),
    decreases s.len(),
{
    if s.len() == 0 {
        assert(spec_after_last_slash(s) =~= s.subrange(idx, s.len() as int));
    } else if s.last() == '/' {
        assert(idx == s.len());
        assert(spec_after_last_slash(s) =~= s.subrange(idx, s.len() as int));
    } else {
        assert(idx < s.len());
        lemma_after_last_slash(s.drop_last(), idx);
        assert(s.drop_last().subrange(idx, s.len() - 1) =~= s.subrange(idx, s.len() - 1));
        assert(spec_after_last_slash(s) =~= s.subrange(idx, s.len() as int));
    }
}

/// The text after the last slash of `s`.
fn after_last_slash(s: &str) -> (r: String)
    ensures
        r@ == spec_after_last_slash(s@),
{
    let cs = crate::text::chars_of(s);
    let n = cs.len();
    let mut idx: usize = n;
    while idx > 0 && cs[idx - 1] != '/'
        invariant
            idx <= n,
            n == s@.len(),
            cs@ == s@,
            forall|j: int| idx <= j < n ==> s@[j] != '/',
        decreases idx,
    {
        idx = idx - 1;
    }
    let r = s.substring_char(idx, n);
    proof {
        lemma_after_last_slash(s@, idx as int);
    }
    r.to_owned()
}

/// Whether the text ends in `.rs`.
pub open spec fn spec_ends_with_rs(s: Seq<char>) -> bool {
    s.len() >= 3 && s.subrange(s.len() - 3, s.len() as int) == seq!['.', 'r', 's']
}

/// The text with every trailing `.rs` removed, one after the other.
pub open spec fn spec_trim_rs(s: Seq<char>) -> Seq<char>
    decreases s.len(),
{
    if spec_ends_with_rs(s) {
        spec_trim_rs(s.subrange(0, s.len() - 3))
    } else {
        s
    }
}

/// Removes every trailing `.rs`, one after the other.
fn trim_rs(s: &str) -> (r: String)
    ensures
        r@ == spec_trim_rs(s@),
{
    let mut cur: String = s.to_owned();
    loop
        invariant
            spec_trim_rs(cur@) == spec_trim_rs(s@),
        decreases cur@.len(),
    {
        let cs = crate::text::chars_of(cur.as_str());
        let n = cs.len();
        if n >= 3 && cs[n - 3] == '.' && cs[n - 2] == 'r' && cs[n - 1] == 's' {
            proof {
                assert(cur@.subrange(cur@.len() - 3, cur@.len() as int) =~= seq!['.', 'r', 's']);
            }
            let shorter = cur.as_str().substring_char(0, n - 3);
            cur = shorter.to_owned();
        } else {
            proof {
                if spec_ends_with_rs(cur@) {
                    assert(cur@.subrange(cur@.len() - 3, cur@.len() as int)[0] == cur@[cur@.len()
                        - 3]);
                    assert(cur@.subrange(cur@.len() - 3, cur@.len() as int)[1] == cur@[cur@.len()
                        - 2]);
                    assert(cur@.subrange(cur@.len() - 3, cur@.len() as int)[2] == cur@[cur@.len()
                        - 1]);
                }
            }
            return cur;
        }
    }
}

/// The handler file for the initial route: the path is the handed route file
/// path itself, and the contents use the file's name — the text after the
/// last slash, with every trailing `.rs` removed — as the route's name.
pub fn write_to_initial_route_rs(route_name: String) -> (r: (String, String))
    ensures
        r.0@ == route_name@,
        r.1@ == spec_route_handler_rs(spec_trim_rs(spec_after_last_slash(route_name@))),
{
    let file_name = after_last_slash(route_name.as_str());
    let stem = trim_rs(file_name.as_str());
    let contents = route_handler_rs(stem.as_str());
    (route_name, contents)
}

/// The dialect-specific dependency block of a generated project's manifest.
pub open spec fn spec_database_dependency(dt: DatabaseType) -> Seq<char> {
    match dt {
        DatabaseType::Postgres => "[dependencies.sqlx]
features = [\"postgres\", \"macros\", \"chrono\", \"json\", \"uuid\", \"offline\"]
version = \"0.6.2\""@,
        DatabaseType::Mysql => "[dependencies.sqlx]
features = [\"mysql\", \"macros\", \"chrono\", \"json\", \"uuid\", \"offline\"]
version = \"0.6.2\""@,
        DatabaseType::Sqlite => "[dependencies.rusqlite]
version = \"0.28.0\"
features = [\"bundled\"]"@,
        DatabaseType::Mongo => "[dependencies.mongodb]
version =  \"2.4.0\"
default-features = false
features = [\"sync\", \"bson\", \"tls\"]"@,
    }
}

/// The manifest of a generated project named `name`, with the dependency
/// block that matches the chosen dialect.
pub open spec fn spec_cargo_toml(name: Seq<char>, dt: DatabaseType) -> Seq<char> {
    "[package]
name = \""@ + name + "\"
version = \"0.1.0\"
authors = [\"RustyRoad\"]
edition = \"2021\"

[dependencies]
actix-web = \"4.0.0-beta.8\"
actix-files = \"0.6.2\"
tokio = { version = \"1\", features = [\"macros\", \"rt-multi-thread\"] }
serde = { version = \"1.0\", features = [\"derive\"] }
serde_json = \"1.0.82\"
random-string = \"1.0.0\"
env_logger = \"0.10.0\"
local-ip-address = \"0.5.0\"
futures = \"0.3.23\"
tera = \"1.17.1\"
reqwest = \"0.11\"
rustyroad = \"0.1.5\"
"@ + spec_database_dependency(dt) + "
"@
}

/// The manifest contents for a generated project, for the caller to write to
/// the project's manifest path.
pub fn write_to_cargo_toml(project_name: &str, database_data: &Database) -> (r: String)
    ensures
        r@ == spec_cargo_toml(project_name@, database_data.database_type),
{
    let mut r: String = "[package]
name = \"".to_owned();
    r.append(project_name);
    r.append("\"
version = \"0.1.0\"
authors = [\"RustyRoad\"]
edition = \"2021\"

[dependencies]
actix-web = \"4.0.0-beta.8\"
actix-files = \"0.6.2\"
tokio = { version = \"1\", features = [\"macros\", \"rt-multi-thread\"] }
serde = { version = \"1.0\", features = [\"derive\"] }
serde_json = \"1.0.82\"
random-string = \"1.0.0\"
env_logger = \"0.10.0\"
local-ip-address = \"0.5.0\"
futures = \"0.3.23\"
tera = \"1.17.1\"
reqwest = \"0.11\"
rustyroad = \"0.1.5\"
");
    match database_data.database_type {
        DatabaseType::Postgres => {
            r.append("[dependencies.sqlx]
features = [\"postgres\", \"macros\", \"chrono\", \"json\", \"uuid\", \"offline\"]
version = \"0.6.2\"");
        },
        DatabaseType::Mysql => {
            r.append("[dependencies.sqlx]
features = [\"mysql\", \"macros\", \"chrono\", \"json\", \"uuid\", \"offline\"]
version = \"0.6.2\"");
        },
        DatabaseType::Sqlite => {
            r.append("[dependencies.rusqlite]
version = \"0.28.0\"
features = [\"bundled\"]");
        },
        DatabaseType::Mongo => {
            r.append("[dependencies.mongodb]
version =  \"2.4.0\"
default-features = false
features = [\"sync\", \"bson\", \"tls\"]");
        },
    }
    r.append("
");
    proof {
        assert(r@ =~= spec_cargo_toml(project_name@, database_data.database_type));
    }
    r
}

} // verus!
