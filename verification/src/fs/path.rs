//! Paths as lists of components: keeping an untrusted path inside a base
//! directory, the way from one path to another, and names that are still
//! free.

use vstd::prelude::*;
use vstd::string::StringExecFns;
use crate::decimal::decimal;
use crate::decimal::lemma_decimal_value;
use crate::decimal::spec_all_digits;
use crate::decimal::spec_decimal;

verus! {

/// One component of a path.
#[derive(Debug, PartialEq, Eq)]
pub enum Component {
    /// A volume or drive, on platforms that have them.
    Prefix(String),
    /// The root directory.
    RootDir,
    /// The current directory, `.`, at the start of a path.
    CurDir,
    /// The parent directory, `..`.
    ParentDir,
    /// A name.
    Normal(String),
}

/// A component with its text as a sequence of characters.
pub ghost enum ComponentView {
    Prefix(Seq<char>),
    RootDir,
    CurDir,
    ParentDir,
    Normal(Seq<char>),
}

/// Why a path is refused.
#[derive(Clone, Copy, Debug, PartialEq, Eq, Structural)]
pub enum PathError {
    /// The path leaves the base directory.
    InvalidInput,
}

impl View for Component {
    type V = ComponentView;

    open spec fn view(&self) -> ComponentView {
        match self {
            Component::Prefix(text) => ComponentView::Prefix(text@),
            Component::RootDir => ComponentView::RootDir,
            Component::CurDir => ComponentView::CurDir,
            Component::ParentDir => ComponentView::ParentDir,
            Component::Normal(text) => ComponentView::Normal(text@),
        }
    }
}

/// The components of a path, each as its view.
pub open spec fn spec_views(parts: Seq<Component>) -> Seq<ComponentView> {
    parts.map_values(|part: Component| part@)
}

/// The stack of components after one more component of the path is
/// read. The current directory changes nothing. The parent directory
/// takes the name before it away, stays at the root, and is kept where
/// there is nothing to take away.
pub open spec fn spec_reduce_step(stack: Seq<ComponentView>, part: ComponentView) -> Seq<
    ComponentView,
> {
    match part {
        ComponentView::CurDir => stack,
        ComponentView::ParentDir => if stack.len() == 0 {
            stack.push(part)
        } else {
            match stack.last() {
                ComponentView::Prefix(_) => stack.push(part),
                ComponentView::RootDir => stack,
                ComponentView::CurDir => stack,
                ComponentView::ParentDir => stack.push(part),
                ComponentView::Normal(_) => stack.drop_last(),
            }
        },
        _ => stack.push(part),
    }
}

/// The path with `.` and `name/..` resolved, read from left to right.
pub open spec fn spec_reduce(parts: Seq<ComponentView>) -> Seq<ComponentView>
    decreases parts.len(),
{
    if parts.len() == 0 {
        Seq::empty()
    } else {
        spec_reduce_step(spec_reduce(parts.drop_last()), parts.last())
    }
}

/// The path `buffer` extended by one component. A prefix replaces the
/// buffer, a root replaces all of it but its prefix, and the current
/// directory adds nothing to a path that is not empty.
pub open spec fn spec_push(buffer: Seq<ComponentView>, part: ComponentView) -> Seq<
    ComponentView,
> {
    match part {
        ComponentView::Prefix(_) => seq![part],
        ComponentView::RootDir => if buffer.len() > 0 && buffer[0] is Prefix {
            seq![buffer[0], part]
        } else {
            seq![part]
        },
        ComponentView::CurDir => if buffer.len() == 0 {
            seq![part]
        } else {
            buffer
        },
        _ => buffer.push(part),
    }
}

/// The path `buffer` extended by the components of `parts` in turn.
pub open spec fn spec_join(buffer: Seq<ComponentView>, parts: Seq<ComponentView>) -> Seq<
    ComponentView,
>
    decreases parts.len(),
{
    if parts.len() == 0 {
        buffer
    } else {
        spec_push(spec_join(buffer, parts.drop_last()), parts.last())
    }
}

pub open spec fn spec_has_parent_dir(parts: Seq<ComponentView>) -> bool {
    exists|i: int| 0 <= i < parts.len() && #[trigger] parts[i] is ParentDir
}

/// What `normalize` gives: the base extended by the resolved path, and a
/// refusal where the resolved path still climbs to a parent.
pub open spec fn spec_normalize(base: Seq<ComponentView>, path: Seq<ComponentView>) -> Result<
    Seq<ComponentView>,
    PathError,
> {
    let stack = spec_reduce(path);
    if spec_has_parent_dir(stack) {
        Err(PathError::InvalidInput)
    } else {
        Ok(spec_join(base, stack))
    }
}

impl Clone for Component {
    fn clone(&self) -> (copy: Component)
        ensures
            copy@ == self@,
    {
        match self {
            Component::Prefix(text) => Component::Prefix(text.clone()),
            Component::RootDir => Component::RootDir,
            Component::CurDir => Component::CurDir,
            Component::ParentDir => Component::ParentDir,
            Component::Normal(text) => Component::Normal(text.clone()),
        }
    }
}

impl Component {
    /// Whether two components are the same.
    pub fn same(&self, other: &Component) -> (r: bool)
        ensures
            r == (self@ == other@),
    {
        match (self, other) {
            (Component::Prefix(a), Component::Prefix(b)) => *a == *b,
            (Component::RootDir, Component::RootDir) => true,
            (Component::CurDir, Component::CurDir) => true,
            (Component::ParentDir, Component::ParentDir) => true,
            (Component::Normal(a), Component::Normal(b)) => *a == *b,
            _ => false,
        }
    }
}

/// Extends the path in `buffer` by one component.
fn push_component(buffer: &mut Vec<Component>, part: &Component)
    ensures
        spec_views(final(buffer)@) == spec_push(spec_views(old(buffer)@), part@),
{
    match part {
        Component::Prefix(_) => {
            buffer.clear();
            buffer.push(part.clone());
            assert(spec_views(buffer@) =~= seq![part@]);
        },
        Component::RootDir => {
            let keep: bool = buffer.len() > 0 && match &buffer[0] {
                Component::Prefix(_) => true,
                _ => false,
            };
            if keep {
                let ghost first = buffer@[0]@;
                buffer.truncate(1);
                buffer.push(Component::RootDir);
                assert(spec_views(buffer@) =~= seq![first, part@]);
            } else {
                buffer.clear();
                buffer.push(Component::RootDir);
                assert(spec_views(buffer@) =~= seq![part@]);
            }
        },
        Component::CurDir => {
            if buffer.len() == 0 {
                buffer.push(Component::CurDir);
                assert(spec_views(buffer@) =~= seq![part@]);
            }
        },
        _ => {
            let ghost before = spec_views(buffer@);
            buffer.push(part.clone());
            assert(spec_views(buffer@) =~= before.push(part@));
        },
    }
}

/// Resolves `.` and `name/..` in a path.
pub fn reduce(path: &Vec<Component>) -> (stack: Vec<Component>)
    ensures
        spec_views(stack@) == spec_reduce(spec_views(path@)),
{
    let mut stack: Vec<Component> = Vec::new();
    let mut i: usize = 0;
    assert(spec_views(path@).subrange(0, 0) =~= Seq::<ComponentView>::empty());
    assert(spec_views(stack@) =~= Seq::<ComponentView>::empty());
    while i < path.len()
        invariant
            i <= path.len(),
            spec_views(stack@) == spec_reduce(spec_views(path@).subrange(0, i as int)),
        decreases path.len() - i,
    {
        let ghost before = spec_views(stack@);
        let ghost read = spec_views(path@).subrange(0, i as int);
        let ghost longer = spec_views(path@).subrange(0, i + 1);
        assert(longer.drop_last() =~= read);
        assert(longer.last() == path@[i as int]@);
        let part = &path[i];
        match part {
            Component::CurDir => {},
            Component::ParentDir => {
                let n: usize = stack.len();
                if n == 0 {
                    stack.push(Component::ParentDir);
                    assert(spec_views(stack@) =~= before.push(part@));
                } else {
                    assert(before.last() == stack@[n - 1]@);
                    match &stack[n - 1] {
                        Component::Prefix(_) => {
                            stack.push(Component::ParentDir);
                            assert(spec_views(stack@) =~= before.push(part@));
                        },
                        Component::RootDir => {},
                        Component::CurDir => {},
                        Component::ParentDir => {
                            stack.push(Component::ParentDir);
                            assert(spec_views(stack@) =~= before.push(part@));
                        },
                        Component::Normal(_) => {
                            let _ = stack.pop();
                            assert(spec_views(stack@) =~= before.drop_last());
                        },
                    }
                }
            },
            _ => {
                stack.push(part.clone());
                assert(spec_views(stack@) =~= before.push(part@));
            },
        }
        i = i + 1;
    }
    assert(spec_views(path@).subrange(0, path.len() as int) =~= spec_views(path@));
    stack
}

/// Resolves an untrusted path against a base directory. The path is
/// refused where, once `.` and `name/..` are resolved, it still climbs to
/// a parent directory; else the base is extended by what is left of the
/// path.
pub fn normalize(base: &Vec<Component>, path: &Vec<Component>) -> (r: Result<
    Vec<Component>,
    PathError,
>)
    ensures
        match r {
            Ok(joined) => spec_normalize(spec_views(base@), spec_views(path@)) == Ok::<
                Seq<ComponentView>,
                PathError,
            >(spec_views(joined@)),
            Err(error) => spec_normalize(spec_views(base@), spec_views(path@)) == Err::<
                Seq<ComponentView>,
                PathError,
            >(error),
        },
{
    let stack = reduce(path);
    let mut buffer: Vec<Component> = Vec::new();
    let mut k: usize = 0;
    assert(spec_views(buffer@) =~= spec_views(base@).subrange(0, 0));
    while k < base.len()
        invariant
            k <= base.len(),
            spec_views(buffer@) == spec_views(base@).subrange(0, k as int),
        decreases base.len() - k,
    {
        let ghost before = spec_views(buffer@);
        buffer.push(base[k].clone());
        assert(spec_views(buffer@) =~= before.push(base@[k as int]@));
        assert(spec_views(base@).subrange(0, k + 1) =~= spec_views(base@).subrange(
            0,
            k as int,
        ).push(base@[k as int]@));
        k = k + 1;
    }
    assert(spec_views(base@).subrange(0, base.len() as int) =~= spec_views(base@));
    let ghost parts = spec_views(stack@);
    let mut i: usize = 0;
    assert(parts.subrange(0, 0) =~= Seq::<ComponentView>::empty());
    while i < stack.len()
        invariant
            i <= stack.len(),
            parts == spec_views(stack@),
            parts == spec_reduce(spec_views(path@)),
            spec_views(buffer@) == spec_join(spec_views(base@), parts.subrange(0, i as int)),
            forall|j: int| 0 <= j < i ==> !(#[trigger] parts[j] is ParentDir),
        decreases stack.len() - i,
    {
        let part = &stack[i];
        assert(parts[i as int] == part@);
        match part {
            Component::ParentDir => {
                assert(parts[i as int] is ParentDir);
                return Err(PathError::InvalidInput);
            },
            _ => {},
        }
        assert(parts.subrange(0, i + 1).drop_last() =~= parts.subrange(0, i as int));
        assert(parts.subrange(0, i + 1).last() == part@);
        push_component(&mut buffer, part);
        i = i + 1;
    }
    assert(parts.subrange(0, stack.len() as int) =~= parts);
    Ok(buffer)
}

/// The length of the longest common beginning of two paths, counted from
/// component `from`.
pub open spec fn spec_common_from(a: Seq<ComponentView>, b: Seq<ComponentView>, from: int) -> int
    decreases a.len() - from,
{
    if 0 <= from < a.len() && from < b.len() && a[from] == b[from] {
        spec_common_from(a, b, from + 1)
    } else {
        from
    }
}

/// The way from `target` to `source`: up, once for each component of
/// `target` that the two paths do not share at their beginning, and then
/// down what is left of `source`.
pub open spec fn spec_relative_from(source: Seq<ComponentView>, target: Seq<ComponentView>) -> Seq<
    ComponentView,
> {
    let shared = spec_common_from(source, target, 0);
    spec_join(
        Seq::new((target.len() - shared) as nat, |i: int| ComponentView::ParentDir),
        source.skip(shared),
    )
}

/// The common beginning of two paths ends within both, the paths agree
/// on it, and they part right after it.
pub proof fn lemma_common_from(a: Seq<ComponentView>, b: Seq<ComponentView>, from: int)
    requires
        0 <= from <= a.len(),
        from <= b.len(),
    ensures
        from <= spec_common_from(a, b, from) <= a.len(),
        spec_common_from(a, b, from) <= b.len(),
        forall|i: int| from <= i < spec_common_from(a, b, from) ==> a[i] == b[i],
        spec_common_from(a, b, from) < a.len() && spec_common_from(a, b, from) < b.len() ==> a[spec_common_from(
            a,
            b,
            from,
        )] != b[spec_common_from(a, b, from)],
    decreases a.len() - from,
{
    if from < a.len() && from < b.len() && a[from] == b[from] {
        lemma_common_from(a, b, from + 1);
    }
}

/// The relative path that leads from `target` to `source`.
pub fn relative_from(source: &Vec<Component>, target: &Vec<Component>) -> (relative: Vec<
    Component,
>)
    ensures
        spec_views(relative@) == spec_relative_from(spec_views(source@), spec_views(target@)),
{
    let ghost a = spec_views(source@);
    let ghost b = spec_views(target@);
    let mut shared: usize = 0;
    while shared < source.len() && shared < target.len() && source[shared].same(&target[shared])
        invariant
            shared <= source.len(),
            shared <= target.len(),
            a == spec_views(source@),
            b == spec_views(target@),
            spec_common_from(a, b, 0) == spec_common_from(a, b, shared as int),
        decreases source.len() - shared,
    {
        assert(a[shared as int] == source@[shared as int]@);
        assert(b[shared as int] == target@[shared as int]@);
        shared = shared + 1;
    }
    proof {
        if shared < source.len() && shared < target.len() {
            assert(a[shared as int] == source@[shared as int]@);
            assert(b[shared as int] == target@[shared as int]@);
        }
    }
    let ups: usize = target.len() - shared;
    let mut relative: Vec<Component> = Vec::new();
    let mut n: usize = 0;
    while n < ups
        invariant
            n <= ups,
            relative@.len() == n,
            forall|j: int| 0 <= j < n ==> (#[trigger] relative@[j])@ == ComponentView::ParentDir,
        decreases ups - n,
    {
        relative.push(Component::ParentDir);
        n = n + 1;
    }
    let ghost parents = spec_views(relative@);
    assert(parents =~= Seq::new(ups as nat, |i: int| ComponentView::ParentDir));
    let ghost rest = a.skip(shared as int);
    let mut i: usize = shared;
    assert(rest.subrange(0, 0) =~= Seq::<ComponentView>::empty());
    while i < source.len()
        invariant
            shared <= i <= source.len(),
            a == spec_views(source@),
            rest == a.skip(shared as int),
            spec_views(relative@) == spec_join(parents, rest.subrange(0, i - shared)),
        decreases source.len() - i,
    {
        let part = &source[i];
        assert(rest[i - shared] == part@);
        assert(rest.subrange(0, i - shared + 1).drop_last() =~= rest.subrange(0, i - shared));
        assert(rest.subrange(0, i - shared + 1).last() == part@);
        push_component(&mut relative, part);
        i = i + 1;
    }
    assert(rest.subrange(0, source.len() - shared) =~= rest);
    relative
}

/// Whether two paths have the same components.
pub fn same_path(a: &Vec<Component>, b: &Vec<Component>) -> (r: bool)
    ensures
        r == (spec_views(a@) == spec_views(b@)),
{
    if a.len() != b.len() {
        assert(spec_views(a@).len() != spec_views(b@).len());
        return false;
    }
    let mut i: usize = 0;
    while i < a.len()
        invariant
            i <= a.len(),
            a.len() == b.len(),
            forall|j: int| 0 <= j < i ==> spec_views(a@)[j] == spec_views(b@)[j],
        decreases a.len() - i,
    {
        if !a[i].same(&b[i]) {
            assert(spec_views(a@)[i as int] != spec_views(b@)[i as int]);
            return false;
        }
        i = i + 1;
    }
    assert(spec_views(a@) =~= spec_views(b@));
    true
}

/// The paths of a listing, each as the views of its components.
pub open spec fn spec_listing(taken: Seq<Vec<Component>>) -> Seq<Seq<ComponentView>> {
    taken.map_values(|path: Vec<Component>| spec_views(path@))
}

/// The name at the end of a path, if it ends in one.
pub open spec fn spec_file_name(path: Seq<ComponentView>) -> Option<Seq<char>> {
    if path.len() > 0 {
        match path.last() {
            ComponentView::Normal(name) => Some(name),
            _ => None,
        }
    } else {
        None
    }
}

/// The digits of a number as characters.
pub open spec fn spec_decimal_chars(k: nat) -> Seq<char> {
    spec_decimal(k).map_values(|byte: u8| byte as char)
}

/// The numbered name: the name, a dot, and the number.
pub open spec fn spec_numbered(name: Seq<char>, k: nat) -> Seq<char> {
    name + seq!['.'] + spec_decimal_chars(k)
}

/// The candidates for a free name, in the order in which they are tried:
/// the path itself, then the path with its last name numbered from one
/// on.
pub open spec fn spec_candidate(path: Seq<ComponentView>, k: nat) -> Seq<ComponentView> {
    if k == 0 {
        path
    } else {
        match spec_file_name(path) {
            Some(name) => path.drop_last().push(ComponentView::Normal(spec_numbered(name, k))),
            None => path,
        }
    }
}

/// Whether candidate `k` is free and every candidate before it is taken.
pub open spec fn spec_first_free(
    path: Seq<ComponentView>,
    taken: Seq<Seq<ComponentView>>,
    k: nat,
) -> bool {
    &&& !taken.contains(spec_candidate(path, k))
    &&& forall|j: nat| j < k ==> taken.contains(#[trigger] spec_candidate(path, j))
}

/// Whether a path is in a listing.
pub fn is_taken(taken: &Vec<Vec<Component>>, path: &Vec<Component>) -> (r: bool)
    ensures
        r == spec_listing(taken@).contains(spec_views(path@)),
{
    let ghost listing = spec_listing(taken@);
    let mut i: usize = 0;
    while i < taken.len()
        invariant
            i <= taken.len(),
            listing == spec_listing(taken@),
            forall|j: int| 0 <= j < i ==> listing[j] != spec_views(path@),
        decreases taken.len() - i,
    {
        assert(listing[i as int] == spec_views(taken@[i as int]@));
        if same_path(&taken[i], path) {
            return true;
        }
        i = i + 1;
    }
    false
}

fn digit_text(digit: u8) -> (text: &'static str)
    requires
        48 <= digit <= 57,
    ensures
        text@ == seq![digit as char],
{
    proof {
        reveal_strlit("0");
        reveal_strlit("1");
        reveal_strlit("2");
        reveal_strlit("3");
        reveal_strlit("4");
        reveal_strlit("5");
        reveal_strlit("6");
        reveal_strlit("7");
        reveal_strlit("8");
        reveal_strlit("9");
    }
    let text = if digit == 48 {
        "0"
    } else if digit == 49 {
        "1"
    } else if digit == 50 {
        "2"
    } else if digit == 51 {
        "3"
    } else if digit == 52 {
        "4"
    } else if digit == 53 {
        "5"
    } else if digit == 54 {
        "6"
    } else if digit == 55 {
        "7"
    } else if digit == 56 {
        "8"
    } else {
        "9"
    };
    assert(text@ =~= seq![digit as char]);
    text
}

/// The name with a dot and a number behind it.
pub fn numbered(name: &String, k: u64) -> (text: String)
    ensures
        text@ == spec_numbered(name@, k as nat),
{
    let mut text: String = name.clone();
    proof {
        reveal_strlit(".");
        lemma_decimal_value(k as nat);
    }
    text.append(".");
    assert(text@ =~= name@ + seq!['.']);
    let digits: Vec<u8> = decimal(k);
    let ghost chars = spec_decimal_chars(k as nat);
    let mut i: usize = 0;
    while i < digits.len()
        invariant
            i <= digits.len(),
            digits@ == spec_decimal(k as nat),
            spec_all_digits(digits@),
            chars == spec_decimal_chars(k as nat),
            text@ =~= name@ + seq!['.'] + chars.subrange(0, i as int),
        decreases digits.len() - i,
    {
        let digit: u8 = digits[i];
        text.append(digit_text(digit));
        assert(chars.subrange(0, i + 1) =~= chars.subrange(0, i as int) + seq![digit as char]);
        i = i + 1;
    }
    assert(chars.subrange(0, digits.len() as int) =~= chars);
    text
}

/// Finds a name that is still free, given the paths that are taken. The
/// path itself is tried first; then its last name gets a dot and a number
/// behind it, from one on, until the name is free. There is no such name
/// for a taken path that does not end in a name.
#[verifier::rlimit(50)]
pub fn find_available_name(path: &Vec<Component>, taken: &Vec<Vec<Component>>) -> (found: Option<
    Vec<Component>,
>)
    ensures
        match found {
            Some(free) => exists|k: nat|
                (k == 0 || spec_file_name(spec_views(path@)) is Some) && spec_first_free(
                    spec_views(path@),
                    spec_listing(taken@),
                    k,
                ) && spec_views(free@) == #[trigger] spec_candidate(spec_views(path@), k),
            None => spec_listing(taken@).contains(spec_views(path@)) && (spec_file_name(
                spec_views(path@),
            ) is None || forall|k: nat|
                k < u64::MAX ==> spec_listing(taken@).contains(
                    #[trigger] spec_candidate(spec_views(path@), k),
                )),
        },
{
    let ghost parts = spec_views(path@);
    let ghost listing = spec_listing(taken@);
    if !is_taken(taken, path) {
        let mut same: Vec<Component> = Vec::new();
        let mut c: usize = 0;
        assert(spec_views(same@) =~= parts.subrange(0, 0));
        while c < path.len()
            invariant
                c <= path.len(),
                parts == spec_views(path@),
                spec_views(same@) == parts.subrange(0, c as int),
            decreases path.len() - c,
        {
            let ghost before = spec_views(same@);
            same.push(path[c].clone());
            assert(spec_views(same@) =~= before.push(path@[c as int]@));
            assert(parts.subrange(0, c + 1) =~= parts.subrange(0, c as int).push(
                path@[c as int]@,
            ));
            c = c + 1;
        }
        assert(parts.subrange(0, path.len() as int) =~= parts);
        assert(spec_first_free(parts, listing, 0));
        assert(spec_views(same@) == spec_candidate(parts, 0));
        return Some(same);
    }
    let n: usize = path.len();
    if n == 0 {
        return None;
    }
    assert(parts.last() == path@[n - 1]@);
    let name: &String = match &path[n - 1] {
        Component::Normal(name) => name,
        _ => {
            return None;
        },
    };
    assert(spec_file_name(parts) == Some(name@));
    let mut counter: u64 = 1;
    assert(spec_candidate(parts, 0) == parts);
    while counter < u64::MAX
        invariant
            1 <= counter <= u64::MAX,
            n == path.len(),
            n > 0,
            parts == spec_views(path@),
            listing == spec_listing(taken@),
            spec_file_name(parts) == Some(name@),
            forall|j: nat| j < counter ==> listing.contains(#[trigger] spec_candidate(parts, j)),
        decreases u64::MAX - counter,
    {
        let mut candidate: Vec<Component> = Vec::new();
        let mut c: usize = 0;
        assert(spec_views(candidate@) =~= parts.subrange(0, 0));
        while c < n - 1
            invariant
                c <= n - 1,
                n == path.len(),
                parts == spec_views(path@),
                spec_views(candidate@) == parts.subrange(0, c as int),
            decreases n - 1 - c,
        {
            let ghost before = spec_views(candidate@);
            candidate.push(path[c].clone());
            assert(spec_views(candidate@) =~= before.push(path@[c as int]@));
            assert(parts.subrange(0, c + 1) =~= parts.subrange(0, c as int).push(
                path@[c as int]@,
            ));
            c = c + 1;
        }
        let ghost front = spec_views(candidate@);
        assert(front =~= parts.drop_last());
        let fresh: Component = Component::Normal(numbered(name, counter));
        candidate.push(fresh);
        assert(spec_views(candidate@) =~= front.push(
            ComponentView::Normal(spec_numbered(name@, counter as nat)),
        ));
        assert(spec_views(candidate@) == spec_candidate(parts, counter as nat));
        if !is_taken(taken, &candidate) {
            assert(spec_first_free(parts, listing, counter as nat));
            return Some(candidate);
        }
        assert forall|j: nat| j < counter + 1 implies listing.contains(
            #[trigger] spec_candidate(parts, j),
        ) by {
            if j == counter {
            }
        }
        counter = counter + 1;
    }
    None
}

/// Where to move what is at `path`, given the paths that are taken: to
/// the first numbered name that is free. There is nothing to move where
/// the path is not taken.
pub fn take(path: &Vec<Component>, taken: &Vec<Vec<Component>>) -> (target: Option<
    Vec<Component>,
>)
    ensures
        !spec_listing(taken@).contains(spec_views(path@)) ==> target is None,
        spec_listing(taken@).contains(spec_views(path@)) ==> match target {
            Some(free) => exists|k: nat|
                k > 0 && spec_file_name(spec_views(path@)) is Some && spec_first_free(
                    spec_views(path@),
                    spec_listing(taken@),
                    k,
                ) && spec_views(free@) == #[trigger] spec_candidate(spec_views(path@), k),
            None => spec_file_name(spec_views(path@)) is None || forall|k: nat|
                k < u64::MAX ==> spec_listing(taken@).contains(
                    #[trigger] spec_candidate(spec_views(path@), k),
                ),
        },
{
    if is_taken(taken, path) {
        let target = find_available_name(path, taken);
        proof {
            let parts = spec_views(path@);
            let listing = spec_listing(taken@);
            if target is Some {
                let free = target->Some_0;
                let k = choose|k: nat|
                    (k == 0 || spec_file_name(parts) is Some) && spec_first_free(parts, listing, k)
                        && spec_views(free@) == #[trigger] spec_candidate(parts, k);
                assert(spec_candidate(parts, 0) == parts);
                assert(k > 0);
            }
        }
        target
    } else {
        None
    }
}

/// What a path is made of, where it has neither a root nor a prefix and
/// resolves without a climb: names alone.
proof fn lemma_reduce_of_relative(path: Seq<ComponentView>)
    requires
        forall|i: int| 0 <= i < path.len() ==> !(#[trigger] path[i] is RootDir || path[i] is Prefix),
    ensures
        forall|i: int|
            0 <= i < spec_reduce(path).len() ==> (#[trigger] spec_reduce(path)[i]) is Normal
                || spec_reduce(path)[i] is ParentDir,
    decreases path.len(),
{
    if path.len() > 0 {
        let front = path.drop_last();
        assert forall|i: int| 0 <= i < front.len() implies !(#[trigger] front[i] is RootDir
            || front[i] is Prefix) by {
            assert(front[i] == path[i]);
        }
        lemma_reduce_of_relative(front);
        assert(!(path[path.len() - 1] is RootDir || path[path.len() - 1] is Prefix));
    }
}

/// Names that are joined to a path follow it unchanged.
proof fn lemma_join_names(base: Seq<ComponentView>, names: Seq<ComponentView>)
    requires
        forall|i: int| 0 <= i < names.len() ==> (#[trigger] names[i]) is Normal,
    ensures
        spec_join(base, names) == base + names,
    decreases names.len(),
{
    if names.len() == 0 {
        assert(base + names =~= base);
    } else {
        let front = names.drop_last();
        assert forall|i: int| 0 <= i < front.len() implies (#[trigger] front[i]) is Normal by {
            assert(front[i] == names[i]);
        }
        lemma_join_names(base, front);
        assert(names[names.len() - 1] is Normal);
        assert((base + front).push(names.last()) =~= base + names);
    }
}

/// An accepted path stays inside the base. Where the path has neither a
/// root nor a prefix and `normalize` accepts it, the result is the base
/// followed by names, with no way up among them.
pub proof fn lemma_normalize_stays_inside(base: Seq<ComponentView>, path: Seq<ComponentView>)
    requires
        forall|i: int| 0 <= i < path.len() ==> !(#[trigger] path[i] is RootDir || path[i] is Prefix),
        spec_normalize(base, path) is Ok,
    ensures
        spec_normalize(base, path) == Ok::<Seq<ComponentView>, PathError>(
            base + spec_reduce(path),
        ),
        forall|i: int|
            0 <= i < spec_reduce(path).len() ==> (#[trigger] spec_reduce(path)[i]) is Normal,
{
    let stack = spec_reduce(path);
    lemma_reduce_of_relative(path);
    assert forall|i: int| 0 <= i < stack.len() implies (#[trigger] stack[i]) is Normal by {
        if stack[i] is ParentDir {
            assert(spec_has_parent_dir(stack));
        }
    }
    lemma_join_names(base, stack);
}

/// A path that climbs above its start is refused, whatever the base.
pub proof fn lemma_normalize_refuses_climb(base: Seq<ComponentView>, path: Seq<ComponentView>)
    requires
        spec_has_parent_dir(spec_reduce(path)),
    ensures
        spec_normalize(base, path) == Err::<Seq<ComponentView>, PathError>(
            PathError::InvalidInput,
        ),
{
}

} // verus!
