//! The facts that the tools record, and the argument lists that carry them.

use vstd::prelude::*;

verus! {

/// How the user relates to a dish.
#[derive(Clone, Copy, Debug, PartialEq, Eq, Structural)]
pub enum FoodKind {
    Allergy,
    Intolerance,
    Dislike,
    NotSure,
    Like,
    Love,
}

/// A diet that the user may or may not follow.
#[derive(Clone, Copy, Debug, PartialEq, Eq, Structural)]
pub enum DietType {
    Vegetarian,
    Vegan,
    GlutenFree,
    Pescatarian,
    Keto,
    Paleo,
}

impl FoodKind {
    /// The name under which the kind is written in a payload.
    pub open spec fn spec_name(self) -> Seq<char> {
        match self {
            FoodKind::Allergy => "allergy"@,
            FoodKind::Intolerance => "intolerance"@,
            FoodKind::Dislike => "dislike"@,
            FoodKind::NotSure => "not_sure"@,
            FoodKind::Like => "like"@,
            FoodKind::Love => "love"@,
        }
    }

    /// The kind that is written as `name`, if `name` is one of the six names.
    pub open spec fn spec_from_name(name: Seq<char>) -> Option<FoodKind> {
        if name == "allergy"@ {
            Some(FoodKind::Allergy)
        } else if name == "intolerance"@ {
            Some(FoodKind::Intolerance)
        } else if name == "dislike"@ {
            Some(FoodKind::Dislike)
        } else if name == "not_sure"@ {
            Some(FoodKind::NotSure)
        } else if name == "like"@ {
            Some(FoodKind::Like)
        } else if name == "love"@ {
            Some(FoodKind::Love)
        } else {
            None
        }
    }

    /// The name under which the kind is written in a payload.
    pub fn name(&self) -> (name: &'static str)
        ensures
            name@ == self.spec_name(),
    {
        match self {
            FoodKind::Allergy => "allergy",
            FoodKind::Intolerance => "intolerance",
            FoodKind::Dislike => "dislike",
            FoodKind::NotSure => "not_sure",
            FoodKind::Like => "like",
            FoodKind::Love => "love",
        }
    }

    /// Reads a kind from its name. Names are compared exactly: no other
    /// spelling or letter case is accepted.
    pub fn from_name(name: &String) -> (kind: Option<FoodKind>)
        ensures
            kind == FoodKind::spec_from_name(name@),
    {
        if *name == String::from_str("allergy") {
            Some(FoodKind::Allergy)
        } else if *name == String::from_str("intolerance") {
            Some(FoodKind::Intolerance)
        } else if *name == String::from_str("dislike") {
            Some(FoodKind::Dislike)
        } else if *name == String::from_str("not_sure") {
            Some(FoodKind::NotSure)
        } else if *name == String::from_str("like") {
            Some(FoodKind::Like)
        } else if *name == String::from_str("love") {
            Some(FoodKind::Love)
        } else {
            None
        }
    }

    /// Every kind is read back from its own name.
    pub proof fn lemma_name_round_trip(self)
        ensures
            FoodKind::spec_from_name(self.spec_name()) == Some(self),
    {
        reveal_strlit("allergy");
        reveal_strlit("intolerance");
        reveal_strlit("dislike");
        reveal_strlit("not_sure");
        reveal_strlit("like");
        reveal_strlit("love");
        assert("allergy"@.len() == 7 && "intolerance"@.len() == 11 && "dislike"@.len() == 7);
        assert("not_sure"@.len() == 8 && "like"@.len() == 4 && "love"@.len() == 4);
        assert("allergy"@[0] != "dislike"@[0]);
        assert("like"@[1] != "love"@[1]);
    }

    /// A name that is read as a kind is that kind's name.
    pub proof fn lemma_from_name_is_name(name: Seq<char>)
        ensures
            FoodKind::spec_from_name(name) matches Some(kind) ==> kind.spec_name() == name,
    {
    }
}

impl DietType {
    /// The name under which the diet is written in a payload.
    pub open spec fn spec_name(self) -> Seq<char> {
        match self {
            DietType::Vegetarian => "vegetarian"@,
            DietType::Vegan => "vegan"@,
            DietType::GlutenFree => "gluten-free"@,
            DietType::Pescatarian => "pescatarian"@,
            DietType::Keto => "keto"@,
            DietType::Paleo => "paleo"@,
        }
    }

    /// The diet that is written as `name`, if `name` is one of the six names.
    pub open spec fn spec_from_name(name: Seq<char>) -> Option<DietType> {
        if name == "vegetarian"@ {
            Some(DietType::Vegetarian)
        } else if name == "vegan"@ {
            Some(DietType::Vegan)
        } else if name == "gluten-free"@ {
            Some(DietType::GlutenFree)
        } else if name == "pescatarian"@ {
            Some(DietType::Pescatarian)
        } else if name == "keto"@ {
            Some(DietType::Keto)
        } else if name == "paleo"@ {
            Some(DietType::Paleo)
        } else {
            None
        }
    }

    /// The name under which the diet is written in a payload.
    pub fn name(&self) -> (name: &'static str)
        ensures
            name@ == self.spec_name(),
    {
        match self {
            DietType::Vegetarian => "vegetarian",
            DietType::Vegan => "vegan",
            DietType::GlutenFree => "gluten-free",
            DietType::Pescatarian => "pescatarian",
            DietType::Keto => "keto",
            DietType::Paleo => "paleo",
        }
    }

    /// Reads a diet from its name. Names are compared exactly: no other
    /// spelling or letter case is accepted.
    pub fn from_name(name: &String) -> (diet: Option<DietType>)
        ensures
            diet == DietType::spec_from_name(name@),
    {
        if *name == String::from_str("vegetarian") {
            Some(DietType::Vegetarian)
        } else if *name == String::from_str("vegan") {
            Some(DietType::Vegan)
        } else if *name == String::from_str("gluten-free") {
            Some(DietType::GlutenFree)
        } else if *name == String::from_str("pescatarian") {
            Some(DietType::Pescatarian)
        } else if *name == String::from_str("keto") {
            Some(DietType::Keto)
        } else if *name == String::from_str("paleo") {
            Some(DietType::Paleo)
        } else {
            None
        }
    }

    /// Every diet is read back from its own name.
    pub proof fn lemma_name_round_trip(self)
        ensures
            DietType::spec_from_name(self.spec_name()) == Some(self),
    {
        reveal_strlit("vegetarian");
        reveal_strlit("vegan");
        reveal_strlit("gluten-free");
        reveal_strlit("pescatarian");
        reveal_strlit("keto");
        reveal_strlit("paleo");
        assert("vegetarian"@.len() == 10 && "vegan"@.len() == 5 && "gluten-free"@.len() == 11);
        assert("pescatarian"@.len() == 11 && "keto"@.len() == 4 && "paleo"@.len() == 5);
        assert("gluten-free"@[0] != "pescatarian"@[0]);
        assert("vegan"@[0] != "paleo"@[0]);
    }

    /// A name that is read as a diet is that diet's name.
    pub proof fn lemma_from_name_is_name(name: Seq<char>)
        ensures
            DietType::spec_from_name(name) matches Some(diet) ==> diet.spec_name() == name,
    {
    }
}

/// One recorded food preference.
#[derive(Debug, PartialEq, Eq)]
pub struct StoreFoodPrefArgsAux {
    pub dish: String,
    pub kind: FoodKind,
}

/// The mathematical value of a food preference: the dish as a sequence of
/// characters, and the kind.
pub struct FoodPrefFact {
    pub dish: Seq<char>,
    pub kind: FoodKind,
}

impl View for StoreFoodPrefArgsAux {
    type V = FoodPrefFact;

    open spec fn view(&self) -> FoodPrefFact {
        FoodPrefFact { dish: self.dish@, kind: self.kind }
    }
}

impl Clone for StoreFoodPrefArgsAux {
    fn clone(&self) -> (copy: Self)
        ensures
            copy@ == self@,
    {
        StoreFoodPrefArgsAux { dish: self.dish.clone(), kind: self.kind }
    }
}

/// One recorded diet declaration. It holds no text, so it is its own
/// mathematical value.
#[derive(Clone, Copy, Debug, PartialEq, Eq, Structural)]
pub struct StoreDietTypeArgsAux {
    pub diet_type: DietType,
    pub follows: bool,
}

/// The arguments of the food-preference tool: zero or more preferences.
#[derive(Debug, PartialEq, Eq)]
pub struct StoreFoodPrefArgs {
    pub dishes: Vec<StoreFoodPrefArgsAux>,
}

/// The arguments of the diet tool: zero or more declarations.
#[derive(Debug, PartialEq, Eq)]
pub struct StoreDietTypeArgs {
    pub diets: Vec<StoreDietTypeArgsAux>,
}

/// The values of a list of food preferences, in order.
pub open spec fn food_facts(prefs: Seq<StoreFoodPrefArgsAux>) -> Seq<FoodPrefFact> {
    prefs.map_values(|p: StoreFoodPrefArgsAux| p@)
}

impl View for StoreFoodPrefArgs {
    type V = Seq<FoodPrefFact>;

    open spec fn view(&self) -> Seq<FoodPrefFact> {
        food_facts(self.dishes@)
    }
}

impl View for StoreDietTypeArgs {
    type V = Seq<StoreDietTypeArgsAux>;

    open spec fn view(&self) -> Seq<StoreDietTypeArgsAux> {
        self.diets@
    }
}

} // verus!
