use vstd::prelude::*;
use vstd::string::*;

use crate::message::AgentConfig;

verus! {

pub open spec fn default_system_prompt() -> Seq<char> {
    "You are a helpful, succint assistant. Please respond only in markdown and no emojis."@
}

/// The models that can be chosen, each as its id and the name shown for it,
/// the default first.
pub struct ModelCatalog {
    entries: Vec<(String, String)>,
}

impl View for ModelCatalog {
    type V = Seq<(Seq<char>, Seq<char>)>;

    closed spec fn view(&self) -> Seq<(Seq<char>, Seq<char>)> {
        self.entries@.map_values(|e: (String, String)| (e.0@, e.1@))
    }
}

/// The first index at or after `i` whose entry has field `k` (0: id, 1: name)
/// equal to `x`, or the length when there is none.
pub open spec fn first_match(c: Seq<(Seq<char>, Seq<char>)>, k: int, x: Seq<char>, i: int) -> int
    decreases c.len() - i,
{
    if i >= c.len() || i < 0 {
        c.len() as int
    } else if (if k == 0 { c[i].0 } else { c[i].1 }) == x {
        i
    } else {
        first_match(c, k, x, i + 1)
    }
}

impl ModelCatalog {
    /// A catalog of `entries`, each an id and the name shown for it.
    pub fn new(entries: Vec<(String, String)>) -> (r: ModelCatalog)
        ensures
            r@ == entries@.map_values(|e: (String, String)| (e.0@, e.1@)),
    {
        ModelCatalog { entries }
    }

    pub fn len(&self) -> (r: usize)
        ensures
            r == self@.len(),
    {
        self.entries.len()
    }

    /// The id of the default model: the first one, if any.
    pub fn default_model(&self) -> (r: Option<String>)
        ensures
            self@.len() == 0 ==> r is None,
            self@.len() > 0 ==> (r matches Some(id) && id@ == self@[0].0),
    {
        if self.entries.len() == 0 {
            None
        } else {
            Some(self.entries[0].0.clone())
        }
    }

    /// The names of all models, in order, for the model selector.
    pub fn display_names(&self) -> (r: Vec<String>)
        ensures
            r@.len() == self@.len(),
            forall|i: int| 0 <= i < r@.len() ==> (#[trigger] r@[i])@ == self@[i].1,
    {
        let mut r: Vec<String> = Vec::new();
        let mut i: usize = 0;
        while i < self.entries.len()
            invariant
                i <= self.entries@.len(),
                r@.len() == i,
                forall|j: int| 0 <= j < i ==> (#[trigger] r@[j])@ == self@[j].1,
            decreases self.entries@.len() - i,
        {
            r.push(self.entries[i].1.clone());
            i = i + 1;
        }
        r
    }

    fn find(&self, k: usize, x: &String) -> (r: usize)
        requires
            k <= 1,
        ensures
            r == first_match(self@, k as int, x@, 0),
    {
        let mut i: usize = 0;
        while i < self.entries.len()
            invariant
                i <= self.entries@.len(),
                first_match(self@, k as int, x@, i as int) == first_match(self@, k as int, x@, 0),
            decreases self.entries@.len() - i,
        {
            let e = &self.entries[i];
            let hit = if k == 0 { e.0 == *x } else { e.1 == *x };
            if hit {
                return i;
            }
            i = i + 1;
        }
        i
    }

    /// The id of the first model shown as `name`, if there is one.
    pub fn id_for(&self, name: &String) -> (r: Option<String>)
        ensures
            ({
                let i = first_match(self@, 1, name@, 0);
                &&& i == self@.len() ==> r is None
                &&& i < self@.len() ==> (r matches Some(id) && id@ == self@[i].0)
            }),
    {
        proof {
            lemma_first_match_bounds(self@, 1, name@, 0);
        }
        let i = self.find(1, name);
        if i < self.entries.len() {
            Some(self.entries[i].0.clone())
        } else {
            None
        }
    }

    /// The name shown for the first model with id `id`, if there is one.
    pub fn name_for(&self, id: &String) -> (r: Option<String>)
        ensures
            ({
                let i = first_match(self@, 0, id@, 0);
                &&& i == self@.len() ==> r is None
                &&& i < self@.len() ==> (r matches Some(name) && name@ == self@[i].1)
            }),
    {
        proof {
            lemma_first_match_bounds(self@, 0, id@, 0);
        }
        let i = self.find(0, id);
        if i < self.entries.len() {
            Some(self.entries[i].1.clone())
        } else {
            None
        }
    }
}

/// `first_match` lies between its start and the length; where it is below
/// the length the entry there matches and none before it does.
pub proof fn lemma_first_match_bounds(c: Seq<(Seq<char>, Seq<char>)>, k: int, x: Seq<char>, i: int)
    requires
        0 <= i <= c.len(),
    ensures
        i <= first_match(c, k, x, i) <= c.len(),
        first_match(c, k, x, i) < c.len() ==> (if k == 0 {
            c[first_match(c, k, x, i)].0
        } else {
            c[first_match(c, k, x, i)].1
        }) == x,
        forall|j: int|
            i <= j < first_match(c, k, x, i) ==> (if k == 0 { c[j].0 } else { c[j].1 }) != x,
    decreases c.len() - i,
{
    if i < c.len() {
        if (if k == 0 { c[i].0 } else { c[i].1 }) != x {
            lemma_first_match_bounds(c, k, x, i + 1);
        }
    }
}

/// The configuration the actor starts with: the house system prompt, a
/// budget of 4096 tokens and `model_id`.
pub fn default_config(model_id: String) -> (r: AgentConfig)
    ensures
        r.system_prompt@ == default_system_prompt(),
        r.max_tokens == 4096,
        r.model_id == model_id,
{
    AgentConfig {
        system_prompt: String::from_str(
            "You are a helpful, succint assistant. Please respond only in markdown and no emojis.",
        ),
        max_tokens: 4096,
        model_id,
    }
}

/// The two colour schemes of the window.
#[derive(Clone, Copy, Debug, PartialEq, Eq, Structural)]
pub enum ColorMode {
    Light,
    Dark,
}

/// The scheme the theme button switches to.
pub fn toggled(mode: ColorMode) -> (r: ColorMode)
    ensures
        r != mode,
{
    match mode {
        ColorMode::Light => ColorMode::Dark,
        ColorMode::Dark => ColorMode::Light,
    }
}

/// The name of the theme that dresses each scheme.
pub fn theme_name(mode: ColorMode) -> (r: &'static str)
    ensures
        mode is Light ==> r@ == "Catppuccin Latte"@,
        mode is Dark ==> r@ == "Catppuccin Macchiato"@,
{
    match mode {
        ColorMode::Light => "Catppuccin Latte",
        ColorMode::Dark => "Catppuccin Macchiato",
    }
}

} // verus!
