//! Canonical repository names, the blacklist, and the reconciliation plan:
//! which repositories of an inventory still need a channel group.
use vstd::prelude::*;

verus! {

/// The canonical (upper-case) form of a name, as `str::to_uppercase` gives it.
pub uninterp spec fn upper_of(s: Seq<char>) -> Seq<char>;

/// Relies on `str::to_uppercase`: the result depends on the characters alone.
#[verifier::external_body]
fn to_upper(s: &str) -> (r: String)
    ensures
        r@ == upper_of(s@),
{
    s.to_uppercase()
}

/// The text of each string of a sequence.
pub open spec fn texts(v: Seq<String>) -> Seq<Seq<char>> {
    v.map_values(|s: String| s@)
}

/// The canonical form of each name of a sequence.
pub open spec fn canonical_all(v: Seq<Seq<char>>) -> Seq<Seq<char>> {
    v.map_values(|s: Seq<char>| upper_of(s))
}

/// Canonical names of the repositories that are never provisioned.
pub open spec fn blacklist() -> Set<Seq<char>> {
    set![".GITHUB"@, "SUBMISSIONS"@, "COMMUNITY"@]
}

/// What a pass does with one repository.
#[derive(PartialEq, Eq, Structural, Clone, Copy, Debug)]
pub enum Decision {
    /// A channel group with the same canonical name exists.
    AlreadyProvisioned,
    /// The canonical name is on the blacklist.
    Blacklisted,
    /// The repository gets a channel group.
    Provision,
}

/// The decision for a repository of canonical name `canon`, given the
/// canonical names of the existing channel groups.
pub open spec fn decide(canon: Seq<char>, existing: Seq<Seq<char>>) -> Decision {
    if existing.contains(canon) {
        Decision::AlreadyProvisioned
    } else if blacklist().contains(canon) {
        Decision::Blacklisted
    } else {
        Decision::Provision
    }
}

/// The repositories of `repos` (whose canonical names are `canon`, position
/// by position) that need provisioning, in listing order.
pub open spec fn missing(repos: Seq<Seq<char>>, canon: Seq<Seq<char>>, existing: Seq<Seq<char>>) -> Seq<Seq<char>>
    decreases repos.len(),
{
    if repos.len() == 0 {
        Seq::empty()
    } else {
        let rest = missing(repos.drop_last(), canon.take(repos.len() - 1), existing);
        if decide(canon[repos.len() - 1], existing) == Decision::Provision {
            rest.push(repos.last())
        } else {
            rest
        }
    }
}

/// Whether `name` is among `names`.
pub fn contains_text(names: &Vec<String>, name: &String) -> (r: bool)
    ensures
        r == texts(names@).contains(name@),
{
    let mut i: usize = 0;
    while i < names.len()
        invariant
            i <= names.len(),
            forall|j: int| 0 <= j < i ==> names@[j]@ != name@,
        decreases names.len() - i,
    {
        if names[i] == *name {
            assert(texts(names@)[i as int] == name@);
            return true;
        }
        i += 1;
    }
    assert(!texts(names@).contains(name@)) by {
        if texts(names@).contains(name@) {
            let k = choose|k: int| 0 <= k < texts(names@).len() && texts(names@)[k] == name@;
            assert(names@[k]@ == name@);
        }
    }
    false
}

/// Whether a canonical name is on the blacklist.
pub fn is_blacklisted(canon: &String) -> (r: bool)
    ensures
        r == blacklist().contains(canon@),
{
    let listed: Vec<String> = vec![
        String::from_str(".GITHUB"),
        String::from_str("SUBMISSIONS"),
        String::from_str("COMMUNITY"),
    ];
    let r = contains_text(&listed, canon);
    proof {
        assert(texts(listed@) =~= seq![".GITHUB"@, "SUBMISSIONS"@, "COMMUNITY"@]);
        if r {
            let k = choose|k: int| 0 <= k < 3 && texts(listed@)[k] == canon@;
            assert(blacklist().contains(canon@));
        } else {
            assert(texts(listed@)[0] == ".GITHUB"@);
            assert(texts(listed@)[1] == "SUBMISSIONS"@);
            assert(texts(listed@)[2] == "COMMUNITY"@);
        }
    }
    r
}

/// The decision for a repository of canonical name `canon`, given the
/// canonical names of the existing channel groups.
pub fn classify(canon: &String, existing: &Vec<String>) -> (d: Decision)
    ensures
        d == decide(canon@, texts(existing@)),
{
    if contains_text(existing, canon) {
        Decision::AlreadyProvisioned
    } else if is_blacklisted(canon) {
        Decision::Blacklisted
    } else {
        Decision::Provision
    }
}

/// The canonical form of each name, in order.
pub fn canonical_names(names: &Vec<String>) -> (r: Vec<String>)
    ensures
        r.len() == names.len(),
        texts(r@) == canonical_all(texts(names@)),
{
    let mut r: Vec<String> = Vec::new();
    let mut i: usize = 0;
    while i < names.len()
        invariant
            i <= names.len(),
            r.len() == i,
            texts(r@) =~= canonical_all(texts(names@)).take(i as int),
        decreases names.len() - i,
    {
        let c = to_upper(names[i].as_str());
        assert(canonical_all(texts(names@))[i as int] == upper_of(names@[i as int]@));
        r.push(c);
        assert(texts(r@)[i as int] == c@);
        i += 1;
        assert(texts(r@) =~= canonical_all(texts(names@)).take(i as int));
    }
    assert(canonical_all(texts(names@)).take(i as int) =~= canonical_all(texts(names@)));
    r
}

/// The repositories that need provisioning, in listing order, given the
/// canonical name of each repository (position by position) and the
/// canonical names of the existing channel groups.
pub fn plan_canonical(repos: &Vec<String>, repo_canon: &Vec<String>, existing_canon: &Vec<String>) -> (r: Vec<String>)
    requires
        repo_canon.len() == repos.len(),
    ensures
        texts(r@) == missing(texts(repos@), texts(repo_canon@), texts(existing_canon@)),
{
    let ghost existing = texts(existing_canon@);
    let mut r: Vec<String> = Vec::new();
    let mut i: usize = 0;
    while i < repos.len()
        invariant
            i <= repos.len(),
            repo_canon.len() == repos.len(),
            existing == texts(existing_canon@),
            texts(r@) == missing(texts(repos@).take(i as int), texts(repo_canon@).take(i as int), existing),
        decreases repos.len() - i,
    {
        let d = classify(&repo_canon[i], existing_canon);
        if d == Decision::Provision {
            r.push(repos[i].clone());
        }
        proof {
            let rs = texts(repos@).take(i + 1);
            let cs = texts(repo_canon@).take(i + 1);
            assert(rs.drop_last() =~= texts(repos@).take(i as int));
            assert(cs.take(i as int) =~= texts(repo_canon@).take(i as int));
            assert(cs[i as int] == repo_canon@[i as int]@);
            assert(rs.last() == repos@[i as int]@);
        }
        i += 1;
        assert(texts(r@) =~= missing(texts(repos@).take(i as int), texts(repo_canon@).take(i as int), existing));
    }
    assert(texts(repos@).take(i as int) =~= texts(repos@));
    assert(texts(repo_canon@).take(i as int) =~= texts(repo_canon@));
    r
}

/// The repositories of `repos` that need a channel group, in listing order,
/// given the names of the channel groups that exist.
pub fn plan(repos: &Vec<String>, categories: &Vec<String>) -> (r: Vec<String>)
    ensures
        texts(r@) == missing(
            texts(repos@),
            canonical_all(texts(repos@)),
            canonical_all(texts(categories@)),
        ),
{
    let repo_canon = canonical_names(repos);
    let existing_canon = canonical_names(categories);
    plan_canonical(repos, &repo_canon, &existing_canon)
}

/// Each repository that `missing` keeps has the decision to provision, and
/// each repository with that decision is kept.
pub proof fn lemma_missing_members(repos: Seq<Seq<char>>, existing: Seq<Seq<char>>)
    ensures
        forall|k: int| 0 <= k < missing(repos, canonical_all(repos), existing).len() ==>
            decide(upper_of(#[trigger] missing(repos, canonical_all(repos), existing)[k]), existing) == Decision::Provision,
        forall|j: int| 0 <= j < repos.len() && decide(upper_of(repos[j]), existing) == Decision::Provision
            ==> missing(repos, canonical_all(repos), existing).contains(#[trigger] repos[j]),
    decreases repos.len(),
{
    if repos.len() > 0 {
        let n = repos.len() - 1;
        let rs = repos.drop_last();
        assert(canonical_all(repos).take(n) =~= canonical_all(rs));
        lemma_missing_members(rs, existing);
        let rest = missing(rs, canonical_all(rs), existing);
        let m = missing(repos, canonical_all(repos), existing);
        assert(canonical_all(repos)[n] == upper_of(repos[n]));
        assert forall|k: int| 0 <= k < m.len() implies
            decide(upper_of(#[trigger] m[k]), existing) == Decision::Provision by {
            if k < rest.len() {
                assert(m[k] == rest[k]);
            }
        }
        assert forall|j: int| 0 <= j < repos.len() && decide(upper_of(repos[j]), existing) == Decision::Provision
            implies m.contains(#[trigger] repos[j]) by {
            if j < n {
                assert(repos[j] == rs[j]);
                let k = choose|k: int| 0 <= k < rest.len() && rest[k] == rs[j];
                if decide(upper_of(repos[n]), existing) == Decision::Provision {
                    assert(m[k] == rest[k]);
                }
            } else {
                assert(m[m.len() - 1] == repos[j]);
            }
        }
    }
}

/// Every repository that `missing` keeps comes from the listing.
pub proof fn lemma_missing_subset(repos: Seq<Seq<char>>, existing: Seq<Seq<char>>)
    ensures
        forall|k: int| 0 <= k < missing(repos, canonical_all(repos), existing).len() ==>
            repos.contains(#[trigger] missing(repos, canonical_all(repos), existing)[k]),
    decreases repos.len(),
{
    if repos.len() > 0 {
        let n = repos.len() - 1;
        let rs = repos.drop_last();
        assert(canonical_all(repos).take(n) =~= canonical_all(rs));
        lemma_missing_subset(rs, existing);
        let rest = missing(rs, canonical_all(rs), existing);
        let m = missing(repos, canonical_all(repos), existing);
        assert forall|k: int| 0 <= k < m.len() implies repos.contains(#[trigger] m[k]) by {
            if k < rest.len() {
                assert(m[k] == rest[k]);
                let j = choose|j: int| 0 <= j < rs.len() && rs[j] == rest[k];
                assert(repos[j] == rs[j]);
            } else {
                assert(repos[n] == m[k]);
            }
        }
    }
}

/// A pass plans nothing once the channel groups that the previous pass
/// created, named after the repositories it planned, stand beside the ones
/// it saw: running a pass twice on an unchanged listing creates nothing the
/// second time.
pub proof fn law_second_pass_plans_nothing(repos: Seq<Seq<char>>, categories: Seq<Seq<char>>)
    ensures
        missing(
            repos,
            canonical_all(repos),
            canonical_all(categories + missing(repos, canonical_all(repos), canonical_all(categories))),
        ).len() == 0,
{
    let canon = canonical_all(repos);
    let first = missing(repos, canon, canonical_all(categories));
    let after = categories + first;
    lemma_missing_members(repos, canonical_all(categories));
    lemma_missing_members(repos, canonical_all(after));
    let second = missing(repos, canon, canonical_all(after));
    if second.len() > 0 {
        let r = second[0];
        assert(decide(upper_of(r), canonical_all(after)) == Decision::Provision);
        lemma_missing_subset(repos, canonical_all(after));
        let j = choose|j: int| 0 <= j < repos.len() && repos[j] == r;
        let c = upper_of(r);
        if canonical_all(categories).contains(c) {
            let k = choose|k: int| 0 <= k < canonical_all(categories).len() && canonical_all(categories)[k] == c;
            assert(canonical_all(after)[k] == c);
        } else if !blacklist().contains(c) {
            assert(first.contains(repos[j]));
            let k = choose|k: int| 0 <= k < first.len() && first[k] == repos[j];
            assert(after[categories.len() + k] == repos[j]);
            assert(canonical_all(after)[categories.len() + k] == c);
        }
    }
}

/// No planned repository has a canonical name on the blacklist, whatever
/// channel groups exist.
pub proof fn law_blacklisted_never_planned(repos: Seq<Seq<char>>, categories: Seq<Seq<char>>)
    ensures
        forall|k: int| 0 <= k < missing(repos, canonical_all(repos), canonical_all(categories)).len()
            ==> !blacklist().contains(upper_of(#[trigger] missing(repos, canonical_all(repos), canonical_all(categories))[k])),
{
    lemma_missing_members(repos, canonical_all(categories));
}

/// A repository is not planned when some channel group's name has the same
/// canonical form as its own, whatever the case of either.
pub proof fn law_case_insensitive_match(repos: Seq<Seq<char>>, categories: Seq<Seq<char>>, repo: Seq<char>, category: Seq<char>)
    requires
        categories.contains(category),
        upper_of(category) == upper_of(repo),
    ensures
        !missing(repos, canonical_all(repos), canonical_all(categories)).contains(repo),
{
    let m = missing(repos, canonical_all(repos), canonical_all(categories));
    lemma_missing_members(repos, canonical_all(categories));
    let c = choose|c: int| 0 <= c < categories.len() && categories[c] == category;
    assert(canonical_all(categories)[c] == upper_of(repo));
    if m.contains(repo) {
        let k = choose|k: int| 0 <= k < m.len() && m[k] == repo;
        assert(decide(upper_of(m[k]), canonical_all(categories)) == Decision::Provision);
    }
}

} // verus!
