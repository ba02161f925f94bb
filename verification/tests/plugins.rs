use calculator_rs::Calculate;
use depot_core::calc::Calculator;
use depot_core::entry::{Invoke, Read};
use depot_core::lua::{
    call_answer, called_entry, entry_step, module_table, read_from_reply, CallReply, EntryStep, LuaLoadError,
    LuaValue, ReadReply,
};

type LuaReply = LuaValue<mlua::Table, mlua::Function, mlua::LuaString>;

fn value(v: mlua::Result<mlua::Value>) -> mlua::Result<LuaReply> {
    v.map(|v| match v {
        mlua::Value::Table(t) => LuaValue::Table(t),
        mlua::Value::Function(f) => LuaValue::Function(f),
        mlua::Value::String(s) => LuaValue::Str(s),
        _ => LuaValue::Other,
    })
}

/// A Lua entry, driven through the library's decisions.
struct Script {
    lua: mlua::Lua,
    table: mlua::Table,
}

fn from_script(script: &str) -> Result<Script, LuaLoadError<mlua::Error>> {
    let lua = mlua::Lua::new();
    lua.load(script).exec().map_err(LuaLoadError::Lua)?;
    let module = module_table(value(lua.globals().get::<mlua::Value>("module")))?;
    let table = match entry_step(value(module.get::<mlua::Value>("entry"))) {
        EntryStep::Ready(t) => t,
        EntryStep::CallFor(f) => called_entry(value(f.call::<mlua::Value>(())))?,
        EntryStep::Stop(e) => return Err(e),
    };
    Ok(Script { lua, table })
}

impl Script {
    fn function(&self, name: &str) -> Option<mlua::Function> {
        match value(self.table.get::<mlua::Value>(name)) {
            Ok(LuaValue::Function(f)) => Some(f),
            _ => None,
        }
    }

    fn push(&self, args: String) {
        if let Some(f) = self.function("push") {
            let _ = f.call::<()>(args);
        }
    }

    fn read(&self, index: usize) -> Option<Read> {
        let reply = match self.function("read").map(|f| value(f.call::<mlua::Value>(index))) {
            Some(Ok(LuaValue::Table(t))) => ReadReply::Row {
                title: t.get::<String>("title").ok(),
                description: t.get::<String>("description").ok(),
            },
            Some(Ok(LuaValue::Str(s))) => ReadReply::Text(s.to_str().ok().map(|b| b.to_string())),
            _ => ReadReply::Nothing,
        };
        read_from_reply(reply)
    }

    fn call(&self, index: usize) -> Option<Invoke<Script>> {
        let reply = match self.function("call").map(|f| value(f.call::<mlua::Value>(index))) {
            Some(Ok(LuaValue::Str(s))) => CallReply::Word(s.to_str().ok().map(|b| b.to_string())),
            Some(Ok(LuaValue::Table(t))) => CallReply::Entry(t),
            _ => CallReply::Nothing,
        };
        match call_answer(reply)? {
            Invoke::Raise(t) => Some(Invoke::Raise(Script { lua: self.lua.clone(), table: t })),
            Invoke::Update(a) => Some(Invoke::Update(a)),
            Invoke::Leave => Some(Invoke::Leave),
            Invoke::Exit => Some(Invoke::Exit),
            Invoke::Remain => Some(Invoke::Remain),
        }
    }
}

fn load(script: &str) -> Script {
    match from_script(script) {
        Ok(e) => e,
        Err(_) => panic!("the script gives an entry"),
    }
}

const SCRIPT: &str = r#"
module = {
  entry = {
    push = function(args) last = args end,
    read = function(i)
      if i == 0 then return { title = "Hello, World!", description = last or "" }
      elseif i == 1 then return "plain"
      elseif i == 2 then return 42
      end
    end,
    call = function(i)
      if i == 0 then return "leave"
      elseif i == 1 then return "exit"
      elseif i == 2 then return "stay"
      elseif i == 3 then return { read = function(j) return "inner" end }
      end
    end,
  }
}
"#;

#[test]
fn lua_entry_reads_and_calls() {
    let e = load(SCRIPT);
    let r = e.read(0).unwrap();
    assert_eq!(r.title, "Hello, World!");
    assert_eq!(r.description, "");
    e.push("abc".to_string());
    assert_eq!(e.read(0).unwrap().description, "abc");
    let r = e.read(1).unwrap();
    assert_eq!((r.title.as_str(), r.description.as_str()), ("plain", ""));
    assert!(e.read(2).is_none());
    assert!(e.read(3).is_none());
    assert!(matches!(e.call(0), Some(Invoke::Leave)));
    assert!(matches!(e.call(1), Some(Invoke::Exit)));
    assert!(matches!(e.call(2), Some(Invoke::Remain)));
    match e.call(3) {
        Some(Invoke::Raise(inner)) => assert_eq!(inner.read(0).unwrap().title, "inner"),
        _ => panic!("a table raises an entry"),
    }
    assert!(e.call(4).is_none());
}

#[test]
fn lua_entry_from_a_function() {
    let e = load("module = { entry = function() return { read = function(i) return 'f' .. i end } end }");
    assert_eq!(e.read(7).unwrap().title, "f7");
    assert!(e.call(0).is_none());
}

#[test]
fn lua_loading_errors() {
    assert!(matches!(from_script("x = 1"), Err(LuaLoadError::NoModuleTable)));
    assert!(matches!(from_script("module = { entry = 5 }"), Err(LuaLoadError::EntryInvalid)));
    assert!(matches!(from_script("module = {}"), Err(LuaLoadError::EntryInvalid)));
    assert!(matches!(
        from_script("module = { entry = function() return 1 end }"),
        Err(LuaLoadError::EntryNotTable)
    ));
    assert!(matches!(from_script("this is not lua"), Err(LuaLoadError::Lua(_))));
    assert!(matches!(
        from_script("module = { entry = function() error('boom') end }"),
        Err(LuaLoadError::Lua(_))
    ));
    assert_eq!(LuaLoadError::<()>::NoModuleTable.message(), Some("no global module table found"));
    assert_eq!(LuaLoadError::<()>::EntryNotTable.message(), Some("module.entry() did not return a table"));
    assert_eq!(LuaLoadError::<()>::EntryInvalid.message(), Some("module.entry not found or invalid"));
    assert_eq!(LuaLoadError::Lua(3).message(), None);
}

#[test]
fn lua_answers_never_update() {
    assert!(matches!(call_answer::<u8>(CallReply::Word(Some("leave".into()))), Some(Invoke::Leave)));
    assert!(matches!(call_answer::<u8>(CallReply::Word(Some("exit".into()))), Some(Invoke::Exit)));
    assert!(matches!(call_answer::<u8>(CallReply::Word(Some("other".into()))), Some(Invoke::Remain)));
    assert!(call_answer::<u8>(CallReply::Word(None)).is_none());
    assert!(matches!(call_answer(CallReply::Entry(9u8)), Some(Invoke::Raise(9))));
    assert!(call_answer::<u8>(CallReply::Nothing).is_none());
    let r = read_from_reply(ReadReply::Row { title: None, description: Some("d".into()) }).unwrap();
    assert_eq!((r.title.as_str(), r.description.as_str()), ("", "d"));
    assert!(read_from_reply(ReadReply::Nothing).is_none());
}

/// An example entry whose second row greets.
const LUA_EXAMPLE: &str = r#"
module = {
  entry = function()
    return {
      read = function(i)
        if i == 0 then return { title = "Example", description = "A Lua entry." }
        elseif i == 1 then return { title = "Hello, World!", description = "Greetings." }
        end
      end,
      call = function(i) return "remain" end,
    }
  end,
}
"#;

#[test]
fn test_load_example() {
    let entry = match from_script(LUA_EXAMPLE) {
        Ok(e) => e,
        Err(_) => panic!("from_script_file"),
    };
    let read = entry.read(1).expect("read returned");
    assert_eq!(read.title, "Hello, World!");
}

fn evaluate(expr: &str) -> Result<String, String> {
    expr.calculate().map(|v| v.to_string()).map_err(|e| e.to_string())
}

#[test]
fn calculator_rows() {
    let mut c = Calculator::new();
    c.push("1+2".to_string());
    let r = c.read(0, evaluate(c.expression())).unwrap();
    assert_eq!(r.title, "3");
    assert_eq!(r.description, "Press Enter to lift the result to the input bar.");
    assert!(matches!(c.call::<()>(0, evaluate(c.expression())), Some(Invoke::Update(s)) if s == "3"));
    assert!(c.read(1, evaluate(c.expression())).is_none());
    assert!(c.call::<()>(1, evaluate(c.expression())).is_none());
    c.push("2*(".to_string());
    let r = c.read(0, evaluate(c.expression())).unwrap();
    assert_eq!(r.description, "Press Enter to clear the input bar.");
    assert!(!r.title.is_empty());
    assert!(matches!(c.call::<()>(0, evaluate(c.expression())), Some(Invoke::Update(s)) if s.is_empty()));
    let r = c.read(0, Err("bad".to_string())).unwrap();
    assert_eq!(r.title, "bad");
}
