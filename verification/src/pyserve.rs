//! The entry-point server source emitted into every generated build
//! context.  It imports the user's designated module and exposes the
//! liveness and inference routes the serving platform probes.

use vstd::prelude::*;

verus! {

use vstd::string::StringExecFns;

/// The generated server source.  It expects the user's code to sit in a
/// file called sageturner.py so that the import statement works.  The
/// liveness route answers GET and POST and succeeds exactly when the
/// user's load() produced a usable model handle; the inference route
/// reads the request body as JSON and forwards that body to the user's
/// predict(), whose return value goes back as the JSON response.
pub const SERVE_CODE: &'static str = r#"import sageturner
from fastapi import FastAPI, Request, HTTPException
import uvicorn

model = sageturner.load()
app = FastAPI()

@app.get('/ping')
@app.post('/ping')
async def ping():
    if model:
        return
    else:
        raise HTTPException(status_code=500, detail="Error")

@app.post('/invocations')
async def predict(request: Request):
    body = await request.json()
    response = sageturner.predict(model, body)
    return response

if __name__ == "__main__":
    config = uvicorn.Config("serve:app", port=8080)
    server = uvicorn.Server(config=config)
    server.run()
"#;

/// The entry-point server source placed beside the user's code.
pub fn get_serve_code() -> (r: String)
    ensures
        r@ == SERVE_CODE@,
{
    String::from_str(SERVE_CODE)
}

} // verus!
