//! Finding, page by page, the files of packages of a source channel that
//! are to be copied into another channel. The pages are fetched by the
//! caller: each step takes the answer to the last query and says what to
//! do next.
use vstd::prelude::*;

use crate::commands::channel::clone_opt;
use crate::commands::package::{copy_packages_valid, entries_error, entries_valid, entry_texts, validate_copy_packages};
use crate::error::PfxError;
use crate::queries::package::{CopyPackageUrlInput, CopySourcePackage, CopySourcePackageVars, CopySourceVariant};
use crate::text::{chars_of, clone_strings, prefix_string, texts};
use crate::urls::{join_url, parse_url, url_join, url_parse};

verus! {

/// How many variants one query asks for.
pub const PAGE_SIZE: i32 = 100;

/// A text without the slashes at its end.
pub open spec fn trim_slashes(s: Seq<char>) -> Seq<char>
    decreases s.len(),
{
    if s.len() > 0 && s.last() == '/' {
        trim_slashes(s.drop_last())
    } else {
        s
    }
}

/// The base URL of a channel as the files are resolved against it: its
/// text without trailing slashes, then one slash.
pub open spec fn base_text(url: Seq<char>) -> Seq<char> {
    trim_slashes(url) + "/"@
}

/// Where a variant lies below its channel: `<platform>/<filename>`.
pub open spec fn variant_path(v: CopySourceVariant) -> Seq<char> {
    v.platform@ + "/"@ + v.filename@
}

/// The file to copy for one variant (its URL and digest), or why there
/// is none: it has no digest, or its URL cannot be formed.
pub open spec fn variant_entry(base: Seq<char>, v: CopySourceVariant) -> Result<(Seq<char>, Seq<char>), Seq<char>> {
    match v.sha256 {
        None => Err("source variant '"@ + variant_path(v) + "' has no SHA-256 digest"@),
        Some(sha) => match url_join(base, variant_path(v)) {
            Err(e) => Err("could not construct source URL for '"@ + variant_path(v) + "': "@ + e),
            Ok(url) => Ok((url, sha@)),
        },
    }
}

/// The files to copy for a page of variants, in order, or the problem of
/// the first variant that has one.
pub open spec fn variants_entries(base: Seq<char>, vs: Seq<CopySourceVariant>) -> Result<Seq<(Seq<char>, Seq<char>)>, Seq<char>>
    decreases vs.len(),
{
    if vs.len() == 0 {
        Ok(Seq::empty())
    } else {
        match variants_entries(base, vs.drop_last()) {
            Err(e) => Err(e),
            Ok(prev) => match variant_entry(base, vs.last()) {
                Err(e) => Err(e),
                Ok(x) => Ok(prev.push(x)),
            },
        }
    }
}

/// The message for a package the source channel does not have.
pub open spec fn not_found_message(name: Seq<char>, source: Seq<char>) -> Seq<char> {
    "package '"@ + name + "' was not found in source channel '"@ + source + "'"@
}

/// The message for a search that found no file at all.
pub open spec fn no_match_message(source: Seq<char>) -> Seq<char> {
    "no package variants matched in source channel '"@ + source + "'"@
}

/// What one answer gives: the files of its page, or why the search fails
/// (the package is missing, the channel's base URL is not a URL, or a
/// variant has a problem).
pub open spec fn page_outcome(source: Seq<char>, name: Seq<char>, answer: Option<CopySourcePackage>) -> Result<Seq<(Seq<char>, Seq<char>)>, Seq<char>> {
    match answer {
        None => Err(not_found_message(name, source)),
        Some(p) => match url_parse(base_text(p.channel.base_url@)) {
            Err(e) => Err("source channel returned an invalid base URL: "@ + e),
            Ok(_) => variants_entries(base_text(p.channel.base_url@), p.variants.page@),
        },
    }
}

/// An optional string as an optional text.
pub open spec fn opt_text(o: Option<String>) -> Option<Seq<char>> {
    match o {
        Some(s) => Some(s@),
        None => None,
    }
}

/// A search, between two queries, for the files of packages of a source
/// channel: which package and page it asked for last, and the files it
/// found before that page.
#[derive(Debug)]
pub struct CopyResolver {
    source: String,
    names: Vec<String>,
    version: Option<String>,
    platform: Option<String>,
    index: usize,
    page: i32,
    inputs: Vec<CopyPackageUrlInput>,
}

/// What to do after a step of the search: fetch another page, copy the
/// files found, or report why there is nothing to copy.
#[derive(Debug)]
pub enum ResolveStep {
    Query(CopyResolver, CopySourcePackageVars),
    Done(Vec<CopyPackageUrlInput>),
    Failed(PfxError),
}

impl CopyResolver {
    #[verifier::type_invariant]
    spec fn waiting(self) -> bool {
        &&& self.index < self.names.len()
        &&& 0 <= self.page < i32::MAX
    }

    /// The source channel.
    pub closed spec fn source_name(self) -> Seq<char> {
        self.source@
    }

    /// The packages searched for, in order.
    pub closed spec fn package_names(self) -> Seq<Seq<char>> {
        texts(self.names@)
    }

    /// The version the variants must have, if any.
    pub closed spec fn version_filter(self) -> Option<Seq<char>> {
        opt_text(self.version)
    }

    /// The platform the variants must be for, if any.
    pub closed spec fn platform_filter(self) -> Option<Seq<char>> {
        opt_text(self.platform)
    }

    /// Which package was asked for last.
    pub closed spec fn current(self) -> int {
        self.index as int
    }

    /// Which page was asked for last.
    pub closed spec fn page(self) -> int {
        self.page as int
    }

    /// The files found before the page asked for last.
    pub closed spec fn found(self) -> Seq<(Seq<char>, Seq<char>)> {
        entry_texts(self.inputs@)
    }
}

/// Whether two searches look for the same packages in the same channel.
pub open spec fn same_search(a: CopyResolver, b: CopyResolver) -> bool {
    &&& a.source_name() == b.source_name()
    &&& a.package_names() == b.package_names()
    &&& a.version_filter() == b.version_filter()
    &&& a.platform_filter() == b.platform_filter()
}

/// Whether `vars` ask for the page of the package that the search `r`
/// waits for, `PAGE_SIZE` variants at a time.
pub open spec fn asks_for(vars: CopySourcePackageVars, r: CopyResolver) -> bool {
    &&& vars.channel_name@ == r.source_name()
    &&& vars.package_name@ == r.package_names()[r.current()]
    &&& vars.limit == Some(PAGE_SIZE)
    &&& vars.page matches Some(p) && p == r.page()
    &&& opt_text(vars.version) == r.version_filter()
    &&& opt_text(vars.platform) == r.platform_filter()
}

/// Whether a step ends the search on the files found so far: with them,
/// if there are any and they may be copied, else with the reason.
pub open spec fn finishes_with(r: ResolveStep, source: Seq<char>, all: Seq<(Seq<char>, Seq<char>)>) -> bool {
    if all.len() == 0 {
        r matches ResolveStep::Failed(PfxError::InvalidArgument(m)) && m@ == no_match_message(source)
    } else if !entries_valid(all) {
        r matches ResolveStep::Failed(PfxError::InvalidArgument(m)) && m@ == entries_error(all)
    } else {
        r matches ResolveStep::Done(v) && entry_texts(v@) == all
    }
}

/// Whether an answer says that the package has pages after `page`.
pub open spec fn has_more_pages(answer: Option<CopySourcePackage>, page: int) -> bool {
    answer matches Some(p) && p.variants.pages > page + 1
}

/// What a step of the search `r0` does with an answer: fails as the
/// answer's page fails; else asks for the package's next page while the
/// answer reports one, else for the first page of the next package, else
/// ends the search on all files found.
pub open spec fn step_result(r0: CopyResolver, answer: Option<CopySourcePackage>, r: ResolveStep) -> bool {
    match page_outcome(r0.source_name(), r0.package_names()[r0.current()], answer) {
        Err(m) => r matches ResolveStep::Failed(PfxError::InvalidArgument(x)) && x@ == m,
        Ok(new) => if has_more_pages(answer, r0.page()) {
            r matches ResolveStep::Query(next, vars)
                && same_search(next, r0)
                && next.current() == r0.current()
                && next.page() == r0.page() + 1
                && next.found() == r0.found() + new
                && asks_for(vars, next)
        } else if r0.current() + 1 < r0.package_names().len() {
            r matches ResolveStep::Query(next, vars)
                && same_search(next, r0)
                && next.current() == r0.current() + 1
                && next.page() == 0
                && next.found() == r0.found() + new
                && asks_for(vars, next)
        } else {
            finishes_with(r, r0.source_name(), r0.found() + new)
        },
    }
}

/// A text without the slashes at its end.
fn trim_trailing_slashes(s: &str) -> (r: String)
    ensures
        r@ == trim_slashes(s@),
{
    let chars = chars_of(s);
    let mut n: usize = chars.len();
    proof {
        assert(chars@.take(chars.len() as int) =~= chars@);
    }
    while n > 0 && chars[n - 1] == '/'
        invariant
            n <= chars.len(),
            chars@ == s@,
            trim_slashes(chars@.take(n as int)) == trim_slashes(s@),
        decreases n,
    {
        proof {
            assert(chars@.take(n as int).drop_last() =~= chars@.take(n - 1));
        }
        n = n - 1;
    }
    prefix_string(&chars, n)
}

/// The variables that ask for a page of a package.
fn page_query(
    source: &String,
    name: &String,
    page: i32,
    version: &Option<String>,
    platform: &Option<String>,
) -> (vars: CopySourcePackageVars)
    ensures
        vars.channel_name@ == source@,
        vars.package_name@ == name@,
        vars.limit == Some(PAGE_SIZE),
        vars.page == Some(page),
        opt_text(vars.version) == opt_text(*version),
        opt_text(vars.platform) == opt_text(*platform),
{
    CopySourcePackageVars {
        channel_name: source.clone(),
        package_name: name.clone(),
        limit: Some(PAGE_SIZE),
        page: Some(page),
        version: clone_opt(version),
        platform: clone_opt(platform),
    }
}

/// `<prefix><path>'<suffix>` for messages about a variant.
fn variant_message(prefix: &str, platform: &String, filename: &String, suffix: &str) -> (r: String)
    ensures
        r@ == prefix@ + platform@ + "/"@ + filename@ + suffix@,
{
    let mut m = String::from_str(prefix);
    m.append(platform.as_str());
    m.append("/");
    m.append(filename.as_str());
    m.append(suffix);
    proof {
        reveal_strlit("/");
        assert(m@ =~= prefix@ + platform@ + "/"@ + filename@ + suffix@);
    }
    m
}

/// A failure with an invalid-argument message.
fn invalid(m: String) -> (r: ResolveStep)
    ensures
        r matches ResolveStep::Failed(PfxError::InvalidArgument(x)) && x@ == m@,
{
    ResolveStep::Failed(PfxError::InvalidArgument(m))
}

/// The files of the first `i + 1` variants of a page, from those of the
/// first `i`.
proof fn lemma_entries_step(base: Seq<char>, vs: Seq<CopySourceVariant>, i: int)
    requires
        0 <= i < vs.len(),
    ensures
        variants_entries(base, vs.take(i + 1)) == match variants_entries(base, vs.take(i)) {
            Err(e) => Err(e),
            Ok(prev) => match variant_entry(base, vs[i]) {
                Err(e) => Err(e),
                Ok(x) => Ok(prev.push(x)),
            },
        },
{
    assert(vs.take(i + 1).drop_last() =~= vs.take(i));
    assert(vs.take(i + 1).last() == vs[i]);
}

/// Once a variant has a problem, the page has it too.
proof fn lemma_entries_error_stays(base: Seq<char>, vs: Seq<CopySourceVariant>, i: int, j: int, m: Seq<char>)
    requires
        0 <= i <= j <= vs.len(),
        variants_entries(base, vs.take(i)) == Err::<Seq<(Seq<char>, Seq<char>)>, Seq<char>>(m),
    ensures
        variants_entries(base, vs.take(j)) == Err::<Seq<(Seq<char>, Seq<char>)>, Seq<char>>(m),
    decreases j - i,
{
    if j > i {
        lemma_entries_error_stays(base, vs, i, j - 1, m);
        assert(vs.take(j).drop_last() =~= vs.take(j - 1));
    }
}

/// The message for a search that found no file at all.
fn no_match(source: &String) -> (r: ResolveStep)
    ensures
        r matches ResolveStep::Failed(PfxError::InvalidArgument(m)) && m@ == no_match_message(source@),
{
    let mut m = String::from_str("no package variants matched in source channel '");
    m.append(source.as_str());
    m.append("'");
    invalid(m)
}

/// Ends the search on the files found: copies them if there are any and
/// they pass the checks, else reports why not.
fn finish(source: &String, inputs: Vec<CopyPackageUrlInput>) -> (r: ResolveStep)
    ensures
        finishes_with(r, source@, entry_texts(inputs@)),
{
    if inputs.len() == 0 {
        return no_match(source);
    }
    match validate_copy_packages(inputs.as_slice()) {
        Err(e) => ResolveStep::Failed(e),
        Ok(()) => ResolveStep::Done(inputs),
    }
}

/// Starts a search for the files of `names` in the channel `source`,
/// optionally of one version or platform: asks for the first page of the
/// first package, or, with no package to look for, fails as a search
/// that found nothing.
pub fn start(source: &str, names: &Vec<String>, version: &Option<String>, platform: &Option<String>) -> (r: ResolveStep)
    ensures
        names.len() == 0 ==> (r matches ResolveStep::Failed(PfxError::InvalidArgument(m))
            && m@ == no_match_message(source@)),
        names.len() > 0 ==> (r matches ResolveStep::Query(next, vars)
            && next.source_name() == source@
            && next.package_names() == texts(names@)
            && next.version_filter() == opt_text(*version)
            && next.platform_filter() == opt_text(*platform)
            && next.current() == 0
            && next.page() == 0
            && next.found() == Seq::<(Seq<char>, Seq<char>)>::empty()
            && asks_for(vars, next)),
{
    let source = String::from_str(source);
    if names.len() == 0 {
        return no_match(&source);
    }
    let vars = page_query(&source, &names[0], 0, version, platform);
    let next = CopyResolver {
        source,
        names: clone_strings(names),
        version: clone_opt(version),
        platform: clone_opt(platform),
        index: 0,
        page: 0,
        inputs: Vec::new(),
    };
    proof {
        assert(entry_texts(next.inputs@) =~= Seq::<(Seq<char>, Seq<char>)>::empty());
    }
    ResolveStep::Query(next, vars)
}

impl CopyResolver {
    /// Takes the answer to the last query (the package, or none if the
    /// channel has no such package) and says what to do next: ask for the
    /// package's next page, else for the first page of the next package,
    /// else end the search on the files found; or fail, on a missing
    /// package, an invalid base URL or a variant with a problem.
    pub fn step(self, answer: Option<CopySourcePackage>) -> (r: ResolveStep)
        ensures
            step_result(self, answer, r),
    {
        proof {
            use_type_invariant(&self);
        }
        let ghost this = self;
        let CopyResolver { source, names, version, platform, index, page, mut inputs } = self;
        let ghost name = names@[index as int]@;
        proof {
            assert(this.package_names()[this.current()] == name);
        }
        let package = match answer {
            None => {
                let mut m = String::from_str("package '");
                m.append(names[index].as_str());
                m.append("' was not found in source channel '");
                m.append(source.as_str());
                m.append("'");
                return invalid(m);
            },
            Some(p) => p,
        };
        let mut base = trim_trailing_slashes(package.channel.base_url.as_str());
        base.append("/");
        match parse_url(base.as_str()) {
            Err(e) => {
                let mut m = String::from_str("source channel returned an invalid base URL: ");
                m.append(e.as_str());
                return invalid(m);
            },
            Ok(_) => {},
        }
        let variants = &package.variants.page;
        proof {
            assert(base@ == base_text(package.channel.base_url@));
            assert(page_outcome(this.source_name(), name, answer) == variants_entries(base@, variants@));
        }
        let ghost old_found = entry_texts(inputs@);
        let mut i: usize = 0;
        proof {
            assert(variants@.take(0) =~= Seq::<CopySourceVariant>::empty());
            assert(old_found + Seq::<(Seq<char>, Seq<char>)>::empty() =~= old_found);
        }
        while i < variants.len()
            invariant
                i <= variants.len(),
                this == self,
                this.current() < this.package_names().len(),
                page_outcome(this.source_name(), this.package_names()[this.current()], answer)
                    == variants_entries(base@, variants@),
                variants_entries(base@, variants@.take(i as int)) matches Ok(e)
                    && entry_texts(inputs@) == old_found + e,
            decreases variants.len() - i,
        {
            let v = &variants[i];
            proof {
                lemma_entries_step(base@, variants@, i as int);
            }
            match &v.sha256 {
                None => {
                    let m = variant_message("source variant '", &v.platform, &v.filename, "' has no SHA-256 digest");
                    proof {
                        assert(m@ =~= "source variant '"@ + variant_path(*v) + "' has no SHA-256 digest"@);
                        assert(variant_entry(base@, *v) == Err::<(Seq<char>, Seq<char>), Seq<char>>(m@));
                        lemma_entries_error_stays(base@, variants@, i + 1, variants@.len() as int, m@);
                        assert(variants@.take(variants@.len() as int) =~= variants@);
                    }
                    return invalid(m);
                },
                Some(sha) => {
                    let mut rel = v.platform.clone();
                    rel.append("/");
                    rel.append(v.filename.as_str());
                    proof {
                        assert(rel@ =~= variant_path(*v));
                    }
                    match join_url(base.as_str(), rel.as_str()) {
                        Err(e) => {
                            let mut m = variant_message("could not construct source URL for '", &v.platform, &v.filename, "': ");
                            m.append(e.as_str());
                            proof {
                                assert(m@ =~= "could not construct source URL for '"@ + variant_path(*v) + "': "@ + e@);
                                assert(variant_entry(base@, *v) == Err::<(Seq<char>, Seq<char>), Seq<char>>(m@));
                                lemma_entries_error_stays(base@, variants@, i + 1, variants@.len() as int, m@);
                                assert(variants@.take(variants@.len() as int) =~= variants@);
                            }
                            return invalid(m);
                        },
                        Ok(url) => {
                            let ghost before = inputs@;
                            inputs.push(CopyPackageUrlInput { url, sha256: sha.clone() });
                            proof {
                                assert(entry_texts(inputs@) =~= entry_texts(before).push((url@, sha@)));
                            }
                        },
                    }
                },
            }
            i = i + 1;
        }
        proof {
            assert(variants@.take(variants@.len() as int) =~= variants@);
        }
        if package.variants.pages > page + 1 {
            let vars = page_query(&source, &names[index], page + 1, &version, &platform);
            let next = CopyResolver { source, names, version, platform, index, page: page + 1, inputs };
            ResolveStep::Query(next, vars)
        } else if index + 1 < names.len() {
            let vars = page_query(&source, &names[index + 1], 0, &version, &platform);
            let next = CopyResolver { source, names, version, platform, index: index + 1, page: 0, inputs };
            ResolveStep::Query(next, vars)
        } else {
            finish(&source, inputs)
        }
    }
}

/// Law: when a search of a source channel ends with files, they are not
/// none, and they pass the checks that a copy of package files makes.
pub proof fn found_files_pass_copy_checks(r: ResolveStep, source: Seq<char>, all: Seq<(Seq<char>, Seq<char>)>)
    requires
        finishes_with(r, source, all),
        r is Done,
    ensures
        r->Done_0@.len() > 0,
        copy_packages_valid(r->Done_0@),
{
}

/// Law: while the answer for a package reports pages after the one just
/// read, the next step asks for that package's next page of the source
/// channel, having kept the files of the page just read.
pub proof fn reads_every_page(r0: CopyResolver, answer: Option<CopySourcePackage>, r: ResolveStep)
    requires
        step_result(r0, answer, r),
        answer matches Some(p) && p.variants.pages > r0.page() + 1,
        page_outcome(r0.source_name(), r0.package_names()[r0.current()], answer) is Ok,
    ensures
        r matches ResolveStep::Query(next, vars) && {
            &&& vars.channel_name@ == r0.source_name()
            &&& vars.package_name@ == r0.package_names()[r0.current()]
            &&& vars.page == Some((r0.page() + 1) as i32)
            &&& next.current() == r0.current()
            &&& next.page() == r0.page() + 1
            &&& next.found() == r0.found() + page_outcome(r0.source_name(), r0.package_names()[r0.current()], answer)->Ok_0
        },
{
}

/// Law: a step leaves a package (for the first page of the next one, or
/// to end the search) only after the last page the answer reports, and
/// what it goes on with, or ends with, is the files found before followed
/// by every file of the page just read.
pub proof fn leaves_package_after_last_page(r0: CopyResolver, answer: Option<CopySourcePackage>, r: ResolveStep)
    requires
        step_result(r0, answer, r),
        page_outcome(r0.source_name(), r0.package_names()[r0.current()], answer) is Ok,
        r is Done || (r matches ResolveStep::Query(next, _) && next.current() != r0.current()),
    ensures
        answer matches Some(p) && p.variants.pages <= r0.page() + 1,
        r matches ResolveStep::Query(next, vars) ==> {
            &&& next.current() == r0.current() + 1
            &&& next.page() == 0
            &&& vars.page == Some(0i32)
            &&& vars.package_name@ == r0.package_names()[r0.current() + 1]
            &&& next.found() == r0.found() + page_outcome(r0.source_name(), r0.package_names()[r0.current()], answer)->Ok_0
        },
        r matches ResolveStep::Done(files) ==> {
            &&& r0.current() + 1 >= r0.package_names().len()
            &&& entry_texts(files@) == r0.found() + page_outcome(r0.source_name(), r0.package_names()[r0.current()], answer)->Ok_0
        },
{
}

} // verus!
