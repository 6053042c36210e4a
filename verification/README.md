# django_deployer

An interactive installer that puts a Django application behind an SGI
server (Gunicorn, Daphne or Uvicorn) and, optionally, a web server (Apache
or NGINX).

- `src/` is the verified library: the commands to run, the paths of the
  files to write, the rendering of the systemd service template, and the
  step functions that decide, event by event, how the installation checks
  go.
- `app/` is the program: prompts, processes, files and coloured output.
- `tests/` runs the library on concrete values.
