use vstd::prelude::*;
use vstd::string::StringExecFns;

verus! {

/// One package the tool reports as outdated: its name, the versions already
/// installed (in the order the tool lists them), the version now available,
/// and whether the user has pinned it (and if so, to which version).
#[derive(Debug)]
pub struct Package {
    pub name: String,
    pub installed_versions: Vec<String>,
    pub current_version: String,
    pub pinned: bool,
    pub pinned_version: Option<String>,
}

/// Mathematical model of [`Package`].
pub struct PackageModel {
    pub name: Seq<char>,
    pub installed_versions: Seq<Seq<char>>,
    pub current_version: Seq<char>,
    pub pinned: bool,
    pub pinned_version: Option<Seq<char>>,
}

impl View for Package {
    type V = PackageModel;

    open spec fn view(&self) -> PackageModel {
        PackageModel {
            name: self.name@,
            installed_versions: self.installed_versions.deep_view(),
            current_version: self.current_version@,
            pinned: self.pinned,
            pinned_version: self.pinned_version.deep_view(),
        }
    }
}

impl DeepView for Package {
    type V = PackageModel;

    open spec fn deep_view(&self) -> PackageModel {
        self.view()
    }
}

impl PackageModel {
    /// The record invariant of a package: its name is non-empty, a pinned
    /// package carries a present, non-empty pin version, and an unpinned
    /// one carries none.
    pub open spec fn wf(self) -> bool {
        &&& self.name.len() > 0
        &&& (self.pinned ==> (self.pinned_version matches Some(v) && v.len() > 0))
        &&& (!self.pinned ==> self.pinned_version is None)
    }
}

/// The tool's outdated report: formulae and casks, each in the order the
/// tool listed them. Duplicates are kept; the decoder is faithful.
#[derive(Debug)]
pub struct OutdatedPackages {
    pub formulae: Vec<Package>,
    pub casks: Vec<Package>,
}

/// Mathematical model of [`OutdatedPackages`].
pub struct ReportModel {
    pub formulae: Seq<PackageModel>,
    pub casks: Seq<PackageModel>,
}

impl View for OutdatedPackages {
    type V = ReportModel;

    open spec fn view(&self) -> ReportModel {
        ReportModel { formulae: self.formulae.deep_view(), casks: self.casks.deep_view() }
    }
}

impl ReportModel {
    /// Every package of the report satisfies the record invariant.
    pub open spec fn wf(self) -> bool {
        &&& forall|i: int| 0 <= i < self.formulae.len() ==> #[trigger] self.formulae[i].wf()
        &&& forall|i: int| 0 <= i < self.casks.len() ==> #[trigger] self.casks[i].wf()
    }
}

fn clone_string_vec(v: &Vec<String>) -> (r: Vec<String>)
    ensures
        r.deep_view() == v.deep_view(),
{
    let mut r: Vec<String> = Vec::new();
    let mut i: usize = 0;
    while i < v.len()
        invariant
            i <= v.len(),
            r@.len() == i,
            forall|j: int| 0 <= j < i ==> r@[j]@ == v@[j]@,
        decreases v.len() - i,
    {
        r.push(v[i].clone());
        i = i + 1;
    }
    proof {
        assert(r.deep_view() =~= v.deep_view());
    }
    r
}

impl Package {
    /// A copy whose model is the same as this package's.
    pub fn duplicate(&self) -> (r: Package)
        ensures
            r@ == self@,
    {
        let pinned_version = match &self.pinned_version {
            Some(s) => Some(s.clone()),
            None => None,
        };
        Package {
            name: self.name.clone(),
            installed_versions: clone_string_vec(&self.installed_versions),
            current_version: self.current_version.clone(),
            pinned: self.pinned,
            pinned_version,
        }
    }
}

/// The given version strings joined by the separator, in order.
pub open spec fn join_spec(items: Seq<Seq<char>>, sep: Seq<char>) -> Seq<char>
    decreases items.len(),
{
    if items.len() == 0 {
        Seq::empty()
    } else if items.len() == 1 {
        items[0]
    } else {
        join_spec(items.drop_last(), sep) + sep + items.last()
    }
}

fn join_with(items: &Vec<String>, sep: &str) -> (r: String)
    ensures
        r@ == join_spec(items.deep_view(), sep@),
{
    let mut r = String::new();
    let mut i: usize = 0;
    while i < items.len()
        invariant
            i <= items.len(),
            r@ == join_spec(items.deep_view().take(i as int), sep@),
        decreases items.len() - i,
    {
        if i > 0 {
            r.append(sep);
        }
        r.append(items[i].as_str());
        proof {
            let full = items.deep_view();
            assert(full.take(i + 1).drop_last() =~= full.take(i as int));
            assert(full.take(i + 1).last() == full[i as int]);
        }
        i = i + 1;
    }
    proof {
        assert(items.deep_view().take(items@.len() as int) =~= items.deep_view());
    }
    r
}

/// "true" or "false".
pub open spec fn bool_str(b: bool) -> Seq<char> {
    if b {
        "true"@
    } else {
        "false"@
    }
}

/// How an optional pinned version is shown: absent as "None", present as
/// the version quoted inside "Some(..)". The version text is inserted as it
/// is, without any escaping.
pub open spec fn opt_version_str(o: Option<Seq<char>>) -> Seq<char> {
    match o {
        None => "None"@,
        Some(s) => "Some(\""@ + s + "\")"@,
    }
}

/// The one-line description of a package: name, available version, installed
/// versions joined by ", ", pin flag and pinned version.
pub open spec fn render_package_spec(p: PackageModel) -> Seq<char> {
    p.name + " => available: "@ + p.current_version + " | installed: "@ + join_spec(
        p.installed_versions,
        ", "@,
    ) + " | pinned: "@ + bool_str(p.pinned) + " | pinned-version: "@ + opt_version_str(
        p.pinned_version,
    )
}

impl Package {
    /// Renders the one-line description of this package.
    pub fn render(&self) -> (r: String)
        ensures
            r@ == render_package_spec(self@),
    {
        let mut s = self.name.clone();
        s.append(" => available: ");
        s.append(self.current_version.as_str());
        s.append(" | installed: ");
        let joined = join_with(&self.installed_versions, ", ");
        s.append(joined.as_str());
        s.append(" | pinned: ");
        if self.pinned {
            s.append("true");
        } else {
            s.append("false");
        }
        s.append(" | pinned-version: ");
        match &self.pinned_version {
            None => s.append("None"),
            Some(v) => {
                s.append("Some(\"");
                s.append(v.as_str());
                s.append("\")");
            }
        }
        s
    }
}

/// One line per package, formulae first, casks after, each line ended by a
/// newline.
pub open spec fn render_lines_spec(ps: Seq<PackageModel>) -> Seq<char>
    decreases ps.len(),
{
    if ps.len() == 0 {
        Seq::empty()
    } else {
        render_lines_spec(ps.drop_last()) + render_package_spec(ps.last()) + "\n"@
    }
}

impl OutdatedPackages {
    /// All reported packages in upgrade order: formulae first, then casks,
    /// each list in the order the tool listed it.
    pub fn all_packages(&self) -> (r: Vec<Package>)
        ensures
            r.deep_view() == self@.formulae + self@.casks,
    {
        let mut r: Vec<Package> = Vec::new();
        let mut i: usize = 0;
        while i < self.formulae.len()
            invariant
                i <= self.formulae.len(),
                r@.len() == i,
                forall|k: int| 0 <= k < i ==> r@[k]@ == self@.formulae[k],
            decreases self.formulae.len() - i,
        {
            r.push(self.formulae[i].duplicate());
            i = i + 1;
        }
        let mut j: usize = 0;
        while j < self.casks.len()
            invariant
                j <= self.casks.len(),
                r@.len() == self.formulae@.len() + j,
                forall|k: int| 0 <= k < self.formulae@.len() ==> r@[k]@ == self@.formulae[k],
                forall|k: int|
                    0 <= k < j ==> r@[self.formulae@.len() + k]@ == self@.casks[k],
            decreases self.casks.len() - j,
        {
            r.push(self.casks[j].duplicate());
            j = j + 1;
        }
        proof {
            assert(r.deep_view() =~= self@.formulae + self@.casks);
        }
        r
    }

    /// Renders the whole report, one line per package.
    pub fn render(&self) -> (r: String)
        ensures
            r@ == render_lines_spec(self@.formulae + self@.casks),
    {
        let all = self.all_packages();
        let mut s = String::new();
        let mut i: usize = 0;
        while i < all.len()
            invariant
                i <= all.len(),
                all.deep_view() == self@.formulae + self@.casks,
                s@ == render_lines_spec(all.deep_view().take(i as int)),
            decreases all.len() - i,
        {
            let line = all[i].render();
            s.append(line.as_str());
            s.append("\n");
            proof {
                let full = all.deep_view();
                assert(full.take(i + 1).drop_last() =~= full.take(i as int));
                assert(full.take(i + 1).last() == full[i as int]);
            }
            i = i + 1;
        }
        proof {
            assert(all.deep_view().take(all@.len() as int) =~= all.deep_view());
        }
        s
    }
}

} // verus!
