use vstd::prelude::*;

verus! {

/// A name for what `str::to_lowercase` returns: the folded form depends on
/// the characters of the input alone.
pub uninterp spec fn lower_of(s: Seq<char>) -> Seq<char>;

/// Relies on str::to_lowercase: the result is a pure function of the
/// characters of the input.
#[verifier::external_body]
fn to_lowercase(s: &String) -> (r: String)
    ensures
        r@ == lower_of(s@),
{
    s.as_str().to_lowercase()
}

/// The registry of command names an operator may invoke. The actions
/// themselves run outside the library; the runner only decides which
/// registered command a raw invocation selects.
pub struct CliRunner {
    command_names: Vec<String>,
}

impl View for CliRunner {
    type V = Seq<Seq<char>>;

    closed spec fn view(&self) -> Seq<Seq<char>> {
        self.command_names.deep_view()
    }
}

impl CliRunner {
    /// An empty registry.
    pub fn new() -> (r: CliRunner)
        ensures
            r@ == Seq::<Seq<char>>::empty(),
    {
        CliRunner { command_names: Vec::new() }
    }

    /// Registers a command under its name.
    pub fn register_command(&mut self, command_name: &str)
        ensures
            final(self)@ == old(self)@.push(command_name@),
    {
        self.command_names.push(command_name.to_owned());
    }

    /// The registered names, in registration order.
    pub fn names(&self) -> (r: &Vec<String>)
        ensures
            r.deep_view() == self@,
    {
        &self.command_names
    }

    /// Which registered command a raw invocation selects: the raw name is
    /// folded to lower case and looked up in the registry; the first match
    /// wins, and no match selects nothing.
    pub fn select_command(&self, raw_name: &String) -> (r: Option<usize>)
        ensures
            match r {
                Some(i) => {
                    &&& i < self@.len()
                    &&& self@[i as int] == lower_of(raw_name@)
                    &&& forall|j: int| 0 <= j < i ==> self@[j] != lower_of(raw_name@)
                },
                None => forall|j: int| 0 <= j < self@.len() ==> self@[j] != lower_of(raw_name@),
            },
    {
        let lowered = to_lowercase(raw_name);
        let mut i: usize = 0;
        while i < self.command_names.len()
            invariant
                i <= self.command_names.len(),
                self@.len() == self.command_names@.len(),
                lowered@ == lower_of(raw_name@),
                forall|j: int| 0 <= j < i ==> self@[j] != lower_of(raw_name@),
            decreases self.command_names.len() - i,
        {
            if self.command_names[i] == lowered {
                assert(self@[i as int] == lower_of(raw_name@));
                return Some(i);
            }
            i = i + 1;
        }
        None
    }
}

} // verus!
