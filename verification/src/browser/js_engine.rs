//! JavaScript engines behind one interface. Only the V8 engine can be made;
//! it evaluates nothing yet and answers with placeholders.

use vstd::prelude::*;
use crate::text::{concat, to_string};

verus! {

/// The JavaScript engines the browser knows.
#[derive(Debug, Clone, Copy, PartialEq, Eq, Structural)]
pub enum JsEngineType {
    V8,
    SpiderMonkey,
    JavaScriptCore,
}

/// The error of an engine that cannot be made yet.
pub open spec fn not_implemented(t: JsEngineType) -> Seq<char> {
    match t {
        JsEngineType::V8 => "V8 engine not yet implemented"@,
        JsEngineType::SpiderMonkey => "SpiderMonkey engine not yet implemented"@,
        JsEngineType::JavaScriptCore => "JavaScriptCore engine not yet implemented"@,
    }
}

/// What a JavaScript engine offers.
pub trait JsEngine {
    /// The engine's name.
    fn name(&self) -> &'static str;

    /// Which engine it is.
    fn engine_type(&self) -> JsEngineType;

    /// Evaluates `script`, answering with its result as text.
    fn evaluate(&self, script: &str) -> Result<String, String>;

    /// Sets the global `name` to `value`.
    fn set_global(&self, name: &str, value: &str) -> Result<(), String>;

    /// The value of the global `name`, as text.
    fn get_global(&self, name: &str) -> Result<String, String>;
}

/// The V8 engine, not wired to V8 yet: it echoes what it is given.
#[derive(Debug)]
pub struct V8Engine {}

impl V8Engine {
    /// A V8 engine.
    pub fn new() -> (res: Result<Self, String>)
        ensures
            res is Ok,
    {
        Ok(V8Engine {})
    }
}

impl JsEngine for V8Engine {
    fn name(&self) -> (res: &'static str)
        ensures
            res@ == "V8"@,
    {
        "V8"
    }

    fn engine_type(&self) -> (res: JsEngineType)
        ensures
            res == JsEngineType::V8,
    {
        JsEngineType::V8
    }

    fn evaluate(&self, script: &str) -> (res: Result<String, String>)
        ensures
            res matches Ok(s) && s@ == "V8 evaluated: "@ + script@,
    {
        Ok(concat("V8 evaluated: ", script))
    }

    fn set_global(&self, name: &str, value: &str) -> (res: Result<(), String>)
        ensures
            res is Ok,
    {
        Ok(())
    }

    fn get_global(&self, name: &str) -> (res: Result<String, String>)
        ensures
            res matches Ok(s) && s@ == "V8 global "@ + name@ + ": placeholder"@,
    {
        Ok(concat(concat("V8 global ", name).as_str(), ": placeholder"))
    }
}

/// The SpiderMonkey engine, which cannot be made yet.
#[derive(Debug)]
pub struct SpiderMonkeyEngine {}

impl SpiderMonkeyEngine {
    /// Fails: the engine is not implemented.
    pub fn new() -> (res: Result<Self, String>)
        ensures
            res matches Err(e) && e@ == "SpiderMonkey engine not yet implemented"@,
    {
        Err(to_string("SpiderMonkey engine not yet implemented"))
    }
}

/// The JavaScriptCore engine, which cannot be made yet.
#[derive(Debug)]
pub struct JavaScriptCoreEngine {}

impl JavaScriptCoreEngine {
    /// Fails: the engine is not implemented.
    pub fn new() -> (res: Result<Self, String>)
        ensures
            res matches Err(e) && e@ == "JavaScriptCore engine not yet implemented"@,
    {
        Err(to_string("JavaScriptCore engine not yet implemented"))
    }
}

/// Runs scripts on the engine chosen when it was made.
pub struct JsEngineManager {
    active_engine: V8Engine,
    engine_type: JsEngineType,
}

impl JsEngineManager {
    /// A manager running `engine_type`; only V8 can be made.
    pub fn new(engine_type: JsEngineType) -> (res: Result<Self, String>)
        ensures
            engine_type == JsEngineType::V8 ==> (res matches Ok(m) && m.kind() == JsEngineType::V8),
            engine_type == JsEngineType::SpiderMonkey ==> (res matches Err(e) && e@
                == "SpiderMonkey engine not yet implemented"@),
            engine_type == JsEngineType::JavaScriptCore ==> (res matches Err(e) && e@
                == "JavaScriptCore engine not yet implemented"@),
    {
        match engine_type {
            JsEngineType::V8 => match V8Engine::new() {
                Ok(e) => Ok(JsEngineManager { active_engine: e, engine_type }),
                Err(e) => Err(e),
            },
            JsEngineType::SpiderMonkey => match SpiderMonkeyEngine::new() {
                Ok(_) => Err(to_string("SpiderMonkey engine not yet implemented")),
                Err(e) => Err(e),
            },
            JsEngineType::JavaScriptCore => match JavaScriptCoreEngine::new() {
                Ok(_) => Err(to_string("JavaScriptCore engine not yet implemented")),
                Err(e) => Err(e),
            },
        }
    }

    /// Which engine runs the scripts.
    pub closed spec fn kind(&self) -> JsEngineType {
        self.engine_type
    }

    /// Evaluates `script` on the engine.
    pub fn evaluate(&self, script: &str) -> (res: Result<String, String>)
        ensures
            res matches Ok(s) && s@ == "V8 evaluated: "@ + script@,
    {
        self.active_engine.evaluate(script)
    }

    /// Sets a global on the engine.
    pub fn set_global(&self, name: &str, value: &str) -> (res: Result<(), String>)
        ensures
            res is Ok,
    {
        self.active_engine.set_global(name, value)
    }

    /// Reads a global from the engine.
    pub fn get_global(&self, name: &str) -> (res: Result<String, String>)
        ensures
            res matches Ok(s) && s@ == "V8 global "@ + name@ + ": placeholder"@,
    {
        self.active_engine.get_global(name)
    }

    /// Which engine runs the scripts.
    pub fn engine_type(&self) -> (res: JsEngineType)
        ensures
            res == self.kind(),
    {
        self.engine_type
    }
}

/// Makes engines of one type.
pub struct JsEngineBuilder {
    engine_type: JsEngineType,
}

impl JsEngineBuilder {
    /// A builder of `engine_type` engines.
    pub fn new(engine_type: JsEngineType) -> (res: Self)
        ensures
            res.kind() == engine_type,
    {
        JsEngineBuilder { engine_type }
    }

    /// The type of engine built.
    pub closed spec fn kind(&self) -> JsEngineType {
        self.engine_type
    }

    /// Builds an engine; only V8 can be built.
    pub fn build(&self) -> (res: Result<JsEngineManager, String>)
        ensures
            self.kind() == JsEngineType::V8 ==> (res matches Ok(m) && m.kind() == JsEngineType::V8),
            self.kind() != JsEngineType::V8 ==> (res matches Err(e) && e@ == not_implemented(self.kind())),
    {
        JsEngineManager::new(self.engine_type)
    }
}

} // verus!
