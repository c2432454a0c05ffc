//! A desktop application as the launcher lists it.

use vstd::prelude::*;

verus! {

#[derive(Debug, PartialEq, Eq)]
pub struct App {
    pub path: String,
    pub icon_path: Option<String>,
    pub name: String,
}

pub ghost struct AppView {
    pub path: Seq<char>,
    pub icon_path: Option<Seq<char>>,
    pub name: Seq<char>,
}

impl View for App {
    type V = AppView;

    open spec fn view(&self) -> AppView {
        AppView {
            path: self.path@,
            icon_path: match self.icon_path {
                Some(p) => Some(p@),
                None => None,
            },
            name: self.name@,
        }
    }
}

pub open spec fn apps_view(apps: Seq<App>) -> Seq<AppView> {
    apps.map_values(|a: App| a@)
}

pub open spec fn ends_with(s: Seq<char>, suffix: Seq<char>) -> bool {
    s.len() >= suffix.len() && s.subrange(s.len() - suffix.len(), s.len() as int) == suffix
}

/// A desktop entry is listed when it is an application that does not ask to
/// be hidden.
pub fn is_listed_entry(no_display: bool, entry_type: Option<&str>) -> (r: bool)
    ensures
        r == (!no_display && entry_type is Some && entry_type->0@ == "Application"@),
{
    if no_display {
        return false;
    }
    match entry_type {
        Some(t) => t.to_owned() == "Application".to_owned(),
        None => false,
    }
}

/// Compressed SVG icons cannot be shown, so they are not used.
pub fn accepts_icon(icon_path: &str) -> (r: bool)
    ensures
        r == !ends_with(icon_path@, ".svgz"@),
{
    proof {
        reveal_strlit(".svgz");
    }
    let n = icon_path.unicode_len();
    if n < 5 {
        return true;
    }
    let tail = icon_path.substring_char(n - 5, n).to_owned();
    !(tail == ".svgz".to_owned())
}

fn same_app(a: &App, b: &App) -> (r: bool)
    ensures
        r == (a@ == b@),
{
    let same_icon = match (&a.icon_path, &b.icon_path) {
        (Some(x), Some(y)) => *x == *y,
        (None, None) => true,
        _ => false,
    };
    a.path == b.path && same_icon && a.name == b.name
}

fn is_installed(app: &App, apps: &Vec<App>) -> (r: bool)
    ensures
        r == apps_view(apps@).contains(app@),
{
    let ghost view = apps_view(apps@);
    let mut i: usize = 0;
    while i < apps.len()
        invariant
            i <= apps.len(),
            view == apps_view(apps@),
            forall|j: int| 0 <= j < i ==> view[j] != app@,
        decreases apps.len() - i,
    {
        if same_app(&apps[i], app) {
            assert(view[i as int] == app@);
            return true;
        }
        i = i + 1;
    }
    false
}

/// The recent apps that are still installed, in their order.
pub fn keep_installed(recent: &Vec<App>, apps: &Vec<App>) -> (r: Vec<App>)
    ensures
        apps_view(r@) == apps_view(recent@).filter(|a: AppView| apps_view(apps@).contains(a)),
{
    let ghost installed = |a: AppView| apps_view(apps@).contains(a);
    let mut r: Vec<App> = Vec::new();
    let mut i: usize = 0;
    assert(apps_view(recent@.subrange(0, 0)).filter(installed) =~= apps_view(r@));
    while i < recent.len()
        invariant
            i <= recent.len(),
            installed == (|a: AppView| apps_view(apps@).contains(a)),
            apps_view(r@) == apps_view(recent@.subrange(0, i as int)).filter(installed),
        decreases recent.len() - i,
    {
        let ghost before = r@;
        assert(apps_view(recent@.subrange(0, i + 1)) =~= apps_view(recent@.subrange(0, i as int)).push(recent@[i as int]@));
        proof {
            apps_view(recent@.subrange(0, i as int)).lemma_filter_push(recent@[i as int]@, installed);
        }
        if is_installed(&recent[i], apps) {
            r.push(recent[i].clone());
            assert(apps_view(r@) =~= apps_view(before).push(recent@[i as int]@));
        }
        i = i + 1;
    }
    assert(recent@.subrange(0, recent.len() as int) =~= recent@);
    r
}

impl Clone for App {
    fn clone(&self) -> (r: Self)
        ensures
            r == *self,
    {
        App { path: self.path.clone(), icon_path: self.icon_path.clone(), name: self.name.clone() }
    }
}

impl App {
    pub fn new(path: &str, name: &str) -> (r: Self)
        ensures
            r.path@ == path@,
            r.icon_path is None,
            r.name@ == name@,
    {
        App { path: path.to_owned(), icon_path: None, name: name.to_owned() }
    }

    pub fn set_icon_path(self, path: &str) -> (r: Self)
        ensures
            r.path == self.path,
            r.icon_path is Some && r.icon_path->0@ == path@,
            r.name == self.name,
    {
        App { icon_path: Some(path.to_owned()), ..self }
    }
}

} // verus!
