//! Storage data sets and the legacy script engine's named global variables.
use vstd::prelude::*;

verus! {

/// Most global variables a legacy game declares.
pub const LEGACY_GLOBALVAR_COUNT: usize = 0x100;

/// The id reported for a name that no global variable has.
pub const GLOBAL_VARIABLE_NOT_FOUND: i32 = 0xFF;

/// The engine's memory pools.
#[derive(Clone, Copy, Debug, PartialEq, Eq, Structural)]
pub enum StorageDataSets {
    DatasetStg,
    DatasetMus,
    DatasetSfx,
    DatasetStr,
    DatasetTmp,
}

pub open spec fn storage_limit_spec(set: StorageDataSets) -> nat {
    match set {
        StorageDataSets::DatasetStg => 24 * 1024 * 1024,
        StorageDataSets::DatasetMus => 8 * 1024 * 1024,
        StorageDataSets::DatasetSfx => 32 * 1024 * 1024,
        StorageDataSets::DatasetStr => 2 * 1024 * 1024,
        StorageDataSets::DatasetTmp => 8 * 1024 * 1024,
    }
}

/// The size in bytes that a data set may grow to.
pub fn get_storage_limit(set: StorageDataSets) -> (r: usize)
    ensures
        r == storage_limit_spec(set),
{
    match set {
        StorageDataSets::DatasetStg => 24 * 1024 * 1024,
        StorageDataSets::DatasetMus => 8 * 1024 * 1024,
        StorageDataSets::DatasetSfx => 32 * 1024 * 1024,
        StorageDataSets::DatasetStr => 2 * 1024 * 1024,
        StorageDataSets::DatasetTmp => 8 * 1024 * 1024,
    }
}

/// Named integer variables, in declaration order.
pub struct GlobalVariables {
    pub names: Vec<String>,
    pub values: Vec<i32>,
}

impl GlobalVariables {
    pub open spec fn wf(&self) -> bool {
        &&& self.names@.len() == self.values@.len()
        &&& self.names@.len() <= LEGACY_GLOBALVAR_COUNT
    }

    /// The first variable named `name`, if any.
    pub open spec fn find_spec(&self, name: Seq<char>) -> Option<int> {
        self.first_from(name, 0)
    }

    pub open spec fn first_from(&self, name: Seq<char>, i: int) -> Option<int>
        decreases self.names@.len() - i,
    {
        if i >= self.names@.len() || i < 0 {
            None
        } else if self.names@[i]@ == name {
            Some(i)
        } else {
            self.first_from(name, i + 1)
        }
    }

    fn find(&self, name: &str) -> (r: Option<usize>)
        requires
            self.wf(),
        ensures
            r matches Some(i) ==> self.find_spec(name@) == Some(i as int) && i < self.names@.len(),
            r is None ==> self.find_spec(name@) is None,
    {
        let key = name.to_owned();
        let mut v: usize = 0;
        while v < self.names.len()
            invariant
                0 <= v <= self.names@.len(),
                key@ == name@,
                self.first_from(name@, v as int) == self.find_spec(name@),
            decreases self.names@.len() - v,
        {
            if self.names[v] == key {
                return Some(v);
            }
            v = v + 1;
        }
        None
    }
}

/// The value of the first variable named `name`, or 0.
pub fn legacy_get_global_variable_by_name(vars: &GlobalVariables, name: &str) -> (r: i32)
    requires
        vars.wf(),
    ensures
        r == (match vars.find_spec(name@) {
            Some(i) => vars.values@[i],
            None => 0,
        }),
{
    match vars.find(name) {
        Some(i) => vars.values[i],
        None => 0,
    }
}

/// Sets the first variable named `name`; nothing changes if there is none.
pub fn legacy_set_global_variable_by_name(vars: &mut GlobalVariables, name: &str, value: i32)
    requires
        old(vars).wf(),
    ensures
        final(vars).wf(),
        final(vars).names@ == old(vars).names@,
        final(vars).values@ == (match old(vars).find_spec(name@) {
            Some(i) => old(vars).values@.update(i, value),
            None => old(vars).values@,
        }),
{
    match vars.find(name) {
        Some(i) => {
            vars.values.set(i, value);
        },
        None => {},
    }
}

/// The index of the first variable named `name`, or `GLOBAL_VARIABLE_NOT_FOUND`.
pub fn legacy_get_global_variable_id(vars: &GlobalVariables, name: &str) -> (r: i32)
    requires
        vars.wf(),
    ensures
        r == (match vars.find_spec(name@) {
            Some(i) => i as i32,
            None => GLOBAL_VARIABLE_NOT_FOUND,
        }),
{
    match vars.find(name) {
        Some(i) => i as i32,
        None => GLOBAL_VARIABLE_NOT_FOUND,
    }
}

} // verus!
