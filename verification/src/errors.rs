//! Errors raised when a persisted value tree cannot be loaded.

use vstd::prelude::*;

verus! {

/// A load failure, identifying the entity whose persisted record was
/// malformed.  Loading is all-or-nothing: on such an error the world is
/// left exactly as it was.
#[derive(Debug)]
pub enum LoadError {
    Character { name: String },
    Item { name: String },
    Scene { name: String },
    World,
}

impl LoadError {
    /// A human-readable description of the failure.
    pub fn message(&self) -> (r: String)
        ensures
            match *self {
                LoadError::Character { name } => r@ == "Wrong format of character '"@ + name@
                    + "'"@,
                LoadError::Item { name } => r@ == "Wrong format of item '"@ + name@ + "'"@,
                LoadError::Scene { name } => r@ == "Wrong format of scene '"@ + name@ + "'"@,
                LoadError::World => r@ == "Wrong format of world"@,
            },
    {
        match self {
            LoadError::Character { name } => {
                let mut s = "Wrong format of character '".to_owned();
                s.append(name.as_str());
                s.append("'");
                s
            },
            LoadError::Item { name } => {
                let mut s = "Wrong format of item '".to_owned();
                s.append(name.as_str());
                s.append("'");
                s
            },
            LoadError::Scene { name } => {
                let mut s = "Wrong format of scene '".to_owned();
                s.append(name.as_str());
                s.append("'");
                s
            },
            LoadError::World => "Wrong format of world".to_owned(),
        }
    }
}

} // verus!
